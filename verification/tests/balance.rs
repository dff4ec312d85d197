use weight_balance::components::group::add_weights;
use weight_balance::components::balance::Balance;
use weight_balance::components::balance::Contribution;
use weight_balance::components::group::centre_of;
use weight_balance::components::group::centre_of_groups;
use weight_balance::components::group::gather;
use weight_balance::components::member::is_acute;
use weight_balance::components::group::merge;
use weight_balance::components::member::need;
use weight_balance::components::evaluation::settle_position;
use weight_balance::components::evaluation::settle_weight;
use weight_balance::failure::Failure;
use weight_balance::failure::Part;
use weight_balance::utils::fixed::Fixed;
use weight_balance::utils::point::Point;
use weight_balance::utils::weight::Weight;

fn weight(raw: i64) -> Weight {
    Weight::new(Fixed { raw }).unwrap()
}

fn point(x: i64, y: i64, z: i64) -> Point<Fixed> {
    Point::new(Fixed { raw: x }, Fixed { raw: y }, Fixed { raw: z })
}

fn item(w: i64, x: i64, y: i64, z: i64) -> Contribution {
    Contribution { part: Part::Payload, weight: weight(w), cg: point(x, y, z) }
}

fn coordinates(p: Point<Fixed>) -> (i64, i64, i64) {
    (p.x.raw, p.y.raw, p.z.raw)
}

#[test]
fn empty_balance_weighs_nothing() {
    let b = Balance::empty();
    assert_eq!(b.weight().get_val().raw, 0);
    assert!(b.is_weightless());
    assert!(b.cg().is_none());
    let m = b.pos_times_weight();
    assert_eq!((m.x, m.y, m.z), (0, 0, 0));
    assert!(Balance::of(&vec![]).unwrap().is_weightless());
}

#[test]
fn balance_of_one_part() {
    let b = Balance::of_one(&item(3_000_000, 10_000_000, -2_000_000, 500_000));
    assert_eq!(b.weight().get_val().raw, 3_000_000);
    let m = b.pos_times_weight();
    assert_eq!((m.x, m.y, m.z), (30_000_000_000_000, -6_000_000_000_000, 1_500_000_000_000));
    assert_eq!(coordinates(b.cg().unwrap()), (10_000_000, -2_000_000, 500_000));
}

#[test]
fn cg_is_the_weighted_mean() {
    let items = vec![item(1_000_000, 0, 0, 0), item(3_000_000, 8_000_000, 4_000_000, -4_000_000)];
    let b = Balance::of(&items).unwrap();
    assert_eq!(b.weight().get_val().raw, 4_000_000);
    assert_eq!(coordinates(b.cg().unwrap()), (6_000_000, 3_000_000, -3_000_000));
}

#[test]
fn cg_rounds_down() {
    let items = vec![item(1, 0, 0, 0), item(2, 1, -1, 5)];
    let b = Balance::of(&items).unwrap();
    assert_eq!(coordinates(b.cg().unwrap()), (0, -1, 3));
    let items = vec![item(2, -3, 3, 0), item(1, 0, 0, 0)];
    let b = Balance::of(&items).unwrap();
    assert_eq!(coordinates(b.cg().unwrap()), (-2, 2, 0));
}

#[test]
fn cg_lies_between_the_parts() {
    let items = vec![
        item(5, -7, 100, i64::MAX),
        item(0, 1_000, -1_000, i64::MIN),
        item(11, 13, 90, i64::MAX - 1),
        item(2, 1, 95, i64::MAX),
    ];
    let cg = Balance::of(&items).unwrap().cg().unwrap();
    assert!(-7 <= cg.x.raw && cg.x.raw <= 13);
    assert!(90 <= cg.y.raw && cg.y.raw <= 100);
    assert!(i64::MAX - 1 <= cg.z.raw);
    assert_eq!(cg.x.raw, 6);
}

#[test]
fn cg_at_the_ends_of_the_range() {
    let items = vec![item(i64::MAX, i64::MIN, i64::MAX, 0)];
    let b = Balance::of(&items).unwrap();
    assert_eq!(coordinates(b.cg().unwrap()), (i64::MIN, i64::MAX, 0));
}

#[test]
fn parts_that_weigh_nothing_have_no_cg() {
    let items = vec![item(0, 5, 5, 5), item(0, 9, 9, 9)];
    let b = Balance::of(&items).unwrap();
    assert!(b.is_weightless());
    assert!(b.cg().is_none());
    assert_eq!(
        centre_of(&Ok(b), Part::Systems).err(),
        Some(Failure::InvalidGeometry { part: Part::Systems })
    );
}

#[test]
fn too_heavy_to_be_held() {
    let items = vec![item(i64::MAX, 1, 1, 1), item(0, 2, 2, 2), item(1, 3, 3, 3)];
    assert!(Balance::of(&items).is_none());
    let items = vec![item(i64::MAX - 1, 1, 1, 1), item(1, 0, 0, 0)];
    assert_eq!(Balance::of(&items).unwrap().weight().get_val().raw, i64::MAX);
    let a = Balance::of_one(&item(i64::MAX, 0, 0, 0));
    let b = Balance::of_one(&item(1, 0, 0, 0));
    assert!(a.checked_plus(&b).is_none());
    assert!(Balance::sum_of(&vec![a, Balance::empty(), b]).is_none());
}

#[test]
fn balances_add() {
    let a = Balance::of(&vec![item(2, 10, 0, 0), item(3, 20, 0, 0)]).unwrap();
    let b = Balance::of_one(&item(5, -4, 6, 1));
    let c = a.checked_plus(&b).unwrap();
    assert_eq!(c.weight().get_val().raw, 10);
    let m = c.pos_times_weight();
    assert_eq!((m.x, m.y, m.z), (60, 30, 5));
    assert_eq!(coordinates(c.cg().unwrap()), (6, 3, 0));
    let d = Balance::sum_of(&vec![a, b]).unwrap();
    assert_eq!(d.weight().get_val().raw, 10);
    assert_eq!(coordinates(d.cg().unwrap()), (6, 3, 0));
    assert!(Balance::sum_of(&vec![]).unwrap().is_weightless());
}

#[test]
fn settle_weight_refuses_what_is_no_weight() {
    assert_eq!(settle_weight(Part::Fuel, Some(Fixed { raw: 7 })).unwrap().get_val().raw, 7);
    assert_eq!(settle_weight(Part::Fuel, Some(Fixed { raw: 0 })).unwrap().get_val().raw, 0);
    assert_eq!(
        settle_weight(Part::Fuel, Some(Fixed { raw: -1 })).err(),
        Some(Failure::NegativeWeight { part: Part::Fuel })
    );
    assert_eq!(
        settle_weight(Part::Crew, None).err(),
        Some(Failure::OutOfRange { part: Part::Crew })
    );
}

#[test]
fn settle_position_adds_the_origin() {
    let origin = point(28_200_000, 0, -1);
    let f = |raw: i64| Some(Fixed { raw });
    let p = settle_position(Part::Nacelle, origin, f(-2_000_000), f(5), f(1)).unwrap();
    assert_eq!(coordinates(p), (26_200_000, 5, 0));
    let out = Some(Failure::OutOfRange { part: Part::Nacelle });
    assert_eq!(settle_position(Part::Nacelle, origin, None, f(5), f(1)).err(), out);
    assert_eq!(settle_position(Part::Nacelle, origin, f(0), None, f(1)).err(), out);
    assert_eq!(settle_position(Part::Nacelle, origin, f(0), f(0), None).err(), out);
    assert_eq!(settle_position(Part::Nacelle, origin, f(i64::MAX), f(0), f(0)).err(), out);
    assert_eq!(settle_position(Part::Nacelle, origin, f(0), f(0), f(i64::MIN)).err(), out);
}

#[test]
fn need_names_the_absent_symbol() {
    assert_eq!(need(Some(Fixed { raw: 3 }), Part::Avionics, "w_uav"), Ok(Fixed { raw: 3 }));
    assert_eq!(
        need(None, Part::Avionics, "w_uav"),
        Err(Failure::MissingParameter { part: Part::Avionics, symbol: "w_uav" })
    );
}

#[test]
fn angles_short_of_a_quarter_turn() {
    assert!(is_acute(Fixed { raw: 0 }));
    assert!(is_acute(Fixed { raw: 1_570_796 }));
    assert!(is_acute(Fixed { raw: -1_570_796 }));
    assert!(!is_acute(Fixed { raw: 1_570_797 }));
    assert!(!is_acute(Fixed { raw: -1_570_797 }));
    assert!(!is_acute(Fixed { raw: i64::MIN }));
}

#[test]
fn add_weights_sums_or_gives_the_first_failure() {
    let neg = Failure::NegativeWeight { part: Part::Nacelle };
    let out = Failure::OutOfRange { part: Part::FuelSystem };
    assert_eq!(add_weights(&vec![], Part::Wings).unwrap().get_val().raw, 0);
    let all = vec![Ok(weight(1)), Ok(weight(20)), Ok(weight(300))];
    assert_eq!(add_weights(&all, Part::Wings).unwrap().get_val().raw, 321);
    let some = vec![Ok(weight(1)), Err(neg), Err(out), Ok(weight(i64::MAX))];
    assert_eq!(add_weights(&some, Part::Wings).err(), Some(neg));
    let heavy = vec![Ok(weight(i64::MAX)), Ok(weight(0)), Ok(weight(1))];
    assert_eq!(
        add_weights(&heavy, Part::Wings).err(),
        Some(Failure::OutOfRange { part: Part::Wings })
    );
    let most = vec![Ok(weight(i64::MAX - 1)), Ok(weight(1))];
    assert_eq!(add_weights(&most, Part::Wings).unwrap().get_val().raw, i64::MAX);
}

#[test]
fn gather_sums_or_gives_the_first_failure() {
    let neg = Failure::NegativeWeight { part: Part::Nacelle };
    let gone = Failure::MissingParameter { part: Part::Avionics, symbol: "x_cg_avionics" };
    let all = vec![Ok(item(1, 10, 0, 0)), Ok(item(1, 20, 2, -2))];
    let b = gather(&all, Part::Fuselage).unwrap();
    assert_eq!(coordinates(b.cg().unwrap()), (15, 1, -1));
    assert_eq!(coordinates(centre_of(&Ok(b), Part::Fuselage).unwrap()), (15, 1, -1));
    let some = vec![Ok(item(1, 10, 0, 0)), Err(gone), Err(neg)];
    assert_eq!(gather(&some, Part::Fuselage).err(), Some(gone));
    assert_eq!(centre_of(&gather(&some, Part::Fuselage), Part::Fuselage).err(), Some(gone));
    let heavy = vec![Ok(item(i64::MAX, 0, 0, 0)), Ok(item(1, 0, 0, 0))];
    assert_eq!(
        gather(&heavy, Part::Fuselage).err(),
        Some(Failure::OutOfRange { part: Part::Fuselage })
    );
}

#[test]
fn merge_adds_groups() {
    let a = Balance::of(&vec![item(2, 10, 0, 0), item(3, 20, 0, 0)]).unwrap();
    let b = Balance::of_one(&item(5, -4, 6, 1));
    let gone = Failure::MissingParameter { part: Part::Nacelle, symbol: "k_ng" };
    let m = merge(&vec![Ok(a), Ok(b)], Part::Aircraft).unwrap();
    assert_eq!(m.weight().get_val().raw, 10);
    assert_eq!(coordinates(m.cg().unwrap()), (6, 3, 0));
    assert_eq!(merge(&vec![Ok(a), Err(gone), Ok(b)], Part::Aircraft).err(), Some(gone));
    let heavy = Balance::of_one(&item(i64::MAX, 0, 0, 0));
    assert_eq!(
        merge(&vec![Ok(a), Ok(heavy)], Part::Aircraft).err(),
        Some(Failure::OutOfRange { part: Part::Aircraft })
    );
    assert!(merge(&vec![], Part::Aircraft).unwrap().is_weightless());
}

#[test]
fn centre_of_groups_lies_between_the_groups() {
    let a = Balance::of(&vec![item(2, 10, 0, 0), item(3, 20, 0, 0)]).unwrap();
    let b = Balance::of_one(&item(5, -4, 6, 1));
    let cg = centre_of_groups(&vec![Ok(a), Ok(b)], Part::Aircraft).unwrap();
    assert_eq!(coordinates(cg), (6, 3, 0));
    let lo = a.cg().unwrap().x.raw.min(b.cg().unwrap().x.raw);
    let hi = a.cg().unwrap().x.raw.max(b.cg().unwrap().x.raw);
    assert_eq!((lo, hi), (-4, 16));
    assert!(lo <= cg.x.raw && cg.x.raw <= hi);
}

#[test]
fn centre_of_groups_fails_with_its_groups() {
    let a = Balance::of_one(&item(5, -4, 6, 1));
    let gone = Failure::MissingParameter { part: Part::Nacelle, symbol: "k_ng" };
    let invalid = Some(Failure::InvalidGeometry { part: Part::Aircraft });
    assert_eq!(centre_of_groups(&vec![Ok(a), Err(gone)], Part::Aircraft).err(), Some(gone));
    assert_eq!(centre_of_groups(&vec![Ok(Balance::empty()), Err(gone)], Part::Aircraft).err(), Some(gone));
    assert_eq!(centre_of_groups(&vec![Ok(a), Ok(Balance::empty())], Part::Aircraft).err(), invalid);
    assert_eq!(centre_of_groups(&vec![], Part::Aircraft).err(), invalid);
    let heavy = Balance::of_one(&item(i64::MAX, 0, 0, 0));
    assert_eq!(
        centre_of_groups(&vec![Ok(a), Ok(heavy)], Part::Aircraft).err(),
        Some(Failure::OutOfRange { part: Part::Aircraft })
    );
}
