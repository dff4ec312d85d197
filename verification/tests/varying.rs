use weight_balance::components::varying::Crew;
use weight_balance::components::varying::Fuel;
use weight_balance::components::varying::LoadCase;
use weight_balance::components::varying::Passengers;
use weight_balance::components::varying::Payload;
use weight_balance::components::varying::Pilots;
use weight_balance::failure::Failure;
use weight_balance::failure::Part;
use weight_balance::utils::fixed::Fixed;
use weight_balance::utils::point::Point;

fn fixed(units: i64) -> Fixed {
    Fixed::from_units(units).unwrap()
}

#[test]
fn pilots_weigh_their_number_times_each() {
    let p = Pilots::new(fixed(2), fixed(85));
    assert_eq!(p.weight().unwrap().get_val(), fixed(170));
    assert_eq!(p.cg.x.raw, 5_280_833);
    let m = p.pos_times_weight().unwrap();
    assert_eq!((m.x, m.y, m.z), (170_000_000 * 5_280_833, 0, 0));
}

#[test]
fn crew_acts_in_the_middle_of_the_cabin() {
    let c = Crew::new(fixed(3), fixed(85));
    assert_eq!(c.weight().unwrap().get_val(), fixed(255));
    let m = c.pos_times_weight().unwrap();
    assert_eq!((m.x, m.y, m.z), (255_000_000 * 47_000_000, 0, 0));
}

#[test]
fn products_round_down() {
    let p = Pilots::new(Fixed { raw: 1_500_000 }, Fixed { raw: 1 });
    assert_eq!(p.weight().unwrap().get_val().raw, 1);
    let p = Pilots::new(Fixed { raw: 999_999 }, Fixed { raw: 1 });
    assert_eq!(p.weight().unwrap().get_val().raw, 0);
}

#[test]
fn loads_below_zero_are_refused() {
    let p = Pilots::new(fixed(-2), fixed(85));
    assert_eq!(p.weight().err(), Some(Failure::NegativeWeight { part: Part::Pilots }));
    assert_eq!(p.pos_times_weight().err(), Some(Failure::NegativeWeight { part: Part::Pilots }));
    let c = Crew::new(fixed(3), Fixed { raw: -1 });
    assert_eq!(c.weight().err(), Some(Failure::NegativeWeight { part: Part::Crew }));
    assert_eq!(
        Payload::new(Fixed { raw: -1 }).weight().err(),
        Some(Failure::NegativeWeight { part: Part::Payload })
    );
    let f = Fuel::new(Fixed { raw: -5 }, Point::new(fixed(1), fixed(0), fixed(0)));
    assert_eq!(f.weight().err(), Some(Failure::NegativeWeight { part: Part::Fuel }));
    assert_eq!(f.pos_times_weight().err(), Some(Failure::NegativeWeight { part: Part::Fuel }));
}

#[test]
fn loads_too_large_are_out_of_range() {
    let p = Passengers::new(Fixed { raw: i64::MAX }, fixed(100), LoadCase::Center);
    assert_eq!(p.weight().err(), Some(Failure::OutOfRange { part: Part::Passengers }));
    assert_eq!(p.pos_times_weight().err(), Some(Failure::OutOfRange { part: Part::Passengers }));
}

#[test]
fn passengers_fill_the_cabin() {
    let centre = Passengers::new(fixed(90), fixed(100), LoadCase::Center);
    assert_eq!(centre.weight().unwrap().get_val(), fixed(9000));
    assert_eq!(centre.cg().x.raw, 4_148_888 + 20_750_000);
    let front = Passengers::new(fixed(30), fixed(100), LoadCase::Front);
    assert_eq!(front.cg().x.raw, 4_148_888 + 13_833_333);
    let rear = Passengers::new(fixed(30), fixed(100), LoadCase::Rear);
    assert_eq!(rear.cg().x.raw, 4_148_888 + 41_500_000 - 13_833_333);
    let full = Passengers::new(fixed(90), fixed(100), LoadCase::Front);
    assert_eq!(full.cg().x.raw, 4_148_888 + 41_500_000);
    let empty = Passengers::new(fixed(0), fixed(100), LoadCase::Rear);
    assert_eq!(empty.cg().x.raw, 4_148_888 + 41_500_000);
    assert_eq!((front.cg().y.raw, front.cg().z.raw), (0, 0));
    let m = front.pos_times_weight().unwrap();
    assert_eq!((m.x, m.y, m.z), (3_000_000_000 * 17_982_221, 0, 0));
    let most = Passengers::new(Fixed { raw: i64::MAX }, fixed(0), LoadCase::Front);
    assert_eq!(most.cg().x.raw, 4_148_888 + 4_252_999_328_105_257_733);
    assert_eq!(LoadCase::Front, LoadCase::Front);
    assert_ne!(LoadCase::Front, LoadCase::Rear);
}

#[test]
fn payload_acts_at_the_origin() {
    let p = Payload::new(fixed(9000));
    assert_eq!(p.weight().unwrap().get_val(), fixed(9000));
    assert_eq!((p.cg.x.raw, p.cg.y.raw, p.cg.z.raw), (0, 0, 0));
    let m = p.pos_times_weight().unwrap();
    assert_eq!((m.x, m.y, m.z), (0, 0, 0));
}

#[test]
fn fuel_acts_where_it_is_put() {
    let f = Fuel::new(fixed(20_000), Point::new(fixed(30), fixed(0), fixed(-1)));
    assert_eq!(f.weight().unwrap().get_val(), fixed(20_000));
    let m = f.pos_times_weight().unwrap();
    assert_eq!((m.x, m.y, m.z), (20_000_000_000 * 30_000_000, 0, -20_000_000_000 * 1_000_000));
}
