use weight_balance::components::aircraft::Aircraft;
use weight_balance::components::balance::Contribution;
use weight_balance::components::evaluation::contribution;
use weight_balance::components::engines::Engines;
use weight_balance::components::formula::Factor;
use weight_balance::components::formula::Formula;
use weight_balance::components::formula::Function;
use weight_balance::components::fuselage::AirConditioning;
use weight_balance::components::fuselage::AntiIcing;
use weight_balance::components::fuselage::Avionics;
use weight_balance::components::fuselage::ElectricalSystems;
use weight_balance::components::fuselage::FlightControls;
use weight_balance::components::fuselage::Furnishing;
use weight_balance::components::fuselage::Fuselage;
use weight_balance::components::fuselage::FuselageStructure;
use weight_balance::components::fuselage::HandlingGear;
use weight_balance::components::fuselage::HydrolicSystem;
use weight_balance::components::fuselage::InstalledApu;
use weight_balance::components::fuselage::Instruments;
use weight_balance::components::fuselage::MainLandingGear;
use weight_balance::components::fuselage::NoseLandingGear;
use weight_balance::components::landing_gear::LandingGear;
use weight_balance::components::systems::Systems;
use weight_balance::components::tailplane::HorizontalTailplane;
use weight_balance::components::tailplane::Tailplane;
use weight_balance::components::tailplane::VerticalTailplane;
use weight_balance::components::evaluation::value_of;
use weight_balance::components::wings::EngineControls;
use weight_balance::components::wings::EnginePneumaticStarter;
use weight_balance::components::wings::FuelSystem;
use weight_balance::components::wings::Nacelle;
use weight_balance::components::wings::Wings;
use weight_balance::components::wings::WingsStructure;
use weight_balance::components::Component;
use weight_balance::components::member::Member;
use weight_balance::failure::Failure;
use weight_balance::failure::Part;
use weight_balance::params::Params;
use weight_balance::utils::extract_params;
use weight_balance::utils::fixed::Fixed;
use weight_balance::utils::point::Point;
use weight_balance::utils::weight::Weight;

/// A mid-size twin-jet transport.
const TABLE: &str = "symbol,value\n\
n_z,3.75\n\
s_w,1000\n\
ar,8.5\n\
lambda,0.25\n\
s_csw,250\n\
t_c_ratio_root,0.12\n\
sweep,0.42\n\
delta_fs_as,6\n\
x_fs,2.5\n\
sweep_fs,0.44\n\
sweep_as,0.35\n\
dihedral,0.09\n\
wing_span,92\n\
k_ng,1.017\n\
n_lt,12\n\
n_w,5.5\n\
w_enc,5800\n\
n_en,2\n\
s_n,210\n\
x_cg_nacelle,-2\n\
y_cg_nacelle,0\n\
z_cg_nacelle,-3\n\
l_ec,120\n\
x_cg_engine_controls,-20\n\
y_cg_engine_controls,0\n\
z_cg_engine_controls,0\n\
v_t,3400\n\
n_t,3\n\
v_p,0\n\
v_i,3400\n\
x_cg_fuel_system,4\n\
y_cg_fuel_system,0\n\
z_cg_fuel_system,0.5\n\
w_en,3800\n\
x_cg_engine_pneumatic_starter,-2\n\
y_cg_engine_pneumatic_starter,0\n\
z_cg_engine_pneumatic_starter,-3\n\
k_door,1.06\n\
k_lg,1.12\n\
l,100\n\
s_f,3300\n\
k_ws,0.25\n\
d,11\n\
pos_cg_f,0.44\n\
n_f,5\n\
l_f,105\n\
b_w,92\n\
x_cg_hydrolic_system,50\n\
y_cg_hydrolic_system,0\n\
z_cg_hydrolic_system,-2\n\
w_l,75000\n\
n_l,4.5\n\
k_mp,1\n\
l_m,90\n\
n_mw,4\n\
v_s,190\n\
n_mss,2\n\
x_cg_main_landing_gear,52\n\
y_cg_main_landing_gear,0\n\
z_cg_main_landing_gear,-6\n\
k_np,1\n\
l_n,70\n\
n_nw,2\n\
x_cg_nose_landing_gear,12\n\
y_cg_nose_landing_gear,0\n\
z_cg_nose_landing_gear,-6\n\
n_c,5\n\
w_c,9000\n\
n_seat,95\n\
w_seat,30\n\
k_lav,1.11\n\
n_p,90\n\
k_buf,1.02\n\
x_cg_furnishing,48\n\
y_cg_furnishing,0\n\
z_cg_furnishing,0\n\
v_pr,6500\n\
w_uav,1100\n\
x_cg_air_conditioning,45\n\
y_cg_air_conditioning,0\n\
z_cg_air_conditioning,-1\n\
r_kva,60\n\
l_a,90\n\
n_gen,2\n\
x_cg_electrical_systems,40\n\
y_cg_electrical_systems,0\n\
z_cg_electrical_systems,0\n\
k_r,1\n\
x_cg_instruments,8\n\
y_cg_instruments,0\n\
z_cg_instruments,1\n\
x_cg_avionics,10\n\
y_cg_avionics,0\n\
z_cg_avionics,0.5\n\
s_cs,380\n\
i_y,2500000\n\
n_m,1\n\
x_cg_flight_controls,55\n\
y_cg_flight_controls,0\n\
z_cg_flight_controls,0\n\
w_apu,400\n\
x_cg_installed_apu,95\n\
y_cg_installed_apu,0\n\
z_cg_installed_apu,1\n\
x_cg_anti_icing,45\n\
y_cg_anti_icing,0\n\
z_cg_anti_icing,0\n\
x_cg_handling_gear,50\n\
y_cg_handling_gear,0\n\
z_cg_handling_gear,0\n\
k_uht,1\n\
s_ht,270\n\
k_y,14\n\
ar_h,4.8\n\
s_e,70\n\
f_w,4\n\
b_ht,36\n\
l_ht,46\n\
sweep_ht,0.5\n\
x_root_ht,92\n\
y_root_ht,0\n\
z_root_ht,18\n\
chord_ht,10\n\
aoa_ht,0.03\n\
h_t,1\n\
h_v,1\n\
s_vt,200\n\
k_z,44\n\
ar_v,1.2\n\
l_vt,42\n\
sweep_vt,0.65\n\
t_c_ratio_root_v,0.11\n\
x_root_vt,84\n\
y_root_vt,0\n\
z_root_vt,6\n\
chord_55_vt,12\n\
fin_height_vt,14\n\
";

const W_DG: Fixed = Fixed { raw: 84_350_000_000 };
const N_Z: Fixed = Fixed { raw: 3_750_000 };
const WINGS_ROOT: Point<Fixed> =
    Point { x: Fixed { raw: 28_200_000 }, y: Fixed { raw: 0 }, z: Fixed { raw: 0 } };

fn number(f: Fixed) -> f64 {
    f.raw as f64 / 1e6
}

/// Evaluates a formula in double precision and rounds to the next millionth.
fn evaluate(formula: &Formula) -> Option<Fixed> {
    let mut sum = 0.0f64;
    for term in &formula.terms {
        let mut product = number(term.coefficient);
        for factor in &term.factors {
            let a = number(factor.argument);
            let base = match factor.function {
                Function::Identity => a,
                Function::Cosine => a.cos(),
                Function::Tangent => a.tan(),
            };
            product *= base.powf(number(factor.exponent));
        }
        sum += product;
    }
    let scaled = (sum * 1e6).round();
    if scaled.is_finite() && scaled.abs() < 9.0e18 {
        Some(Fixed { raw: scaled as i64 })
    } else {
        None
    }
}

fn table() -> Params {
    extract_params(TABLE.as_bytes()).unwrap()
}

fn table_with(symbol: &str, value: i64) -> Params {
    let mut p = table();
    p.insert(symbol.to_string(), Fixed { raw: value });
    p
}

fn table_without(symbol: &str) -> Params {
    let mut text = String::new();
    for line in TABLE.lines() {
        if line.split(',').next() != Some(symbol) {
            text.push_str(line);
            text.push('\n');
        }
    }
    extract_params(text.as_bytes()).unwrap()
}

fn lb(w: Result<Weight, Failure>) -> i64 {
    w.unwrap().get_val().raw
}

fn close(actual: i64, expected: i64) -> bool {
    (actual - expected).abs() <= 50
}

fn missing(part: Part, symbol: &'static str) -> Failure {
    Failure::MissingParameter { part, symbol }
}

fn power(argument: i64, exponent: i64) -> Factor {
    Factor::power(Fixed { raw: argument }, exponent)
}

fn members_of_the_aircraft(params: &Params) -> Vec<Member> {
    let a = Aircraft::new(params).with_wings_at(WINGS_ROOT);
    let mut all = a.wings.members(W_DG, N_Z);
    all.extend(a.fuselage.members(W_DG, N_Z));
    all.extend(a.tailplane.members(W_DG, N_Z));
    all
}

fn contributions(members: &Vec<Member>) -> Vec<Contribution> {
    members.iter().map(|m| contribution(m, &evaluate).unwrap()).collect()
}

#[test]
fn new_takes_each_field_from_its_symbol() {
    let p = table();
    let n = Nacelle::new(&p);
    assert_eq!(n.k_ng, Some(Fixed { raw: 1_017_000 }));
    assert_eq!(n.n_lt, Some(Fixed { raw: 12_000_000 }));
    assert_eq!(n.n_w, Some(Fixed { raw: 5_500_000 }));
    assert_eq!(n.w_enc, Some(Fixed { raw: 5_800_000_000 }));
    assert_eq!(n.n_en, Some(Fixed { raw: 2_000_000 }));
    assert_eq!(n.s_n, Some(Fixed { raw: 210_000_000 }));
    assert_eq!(n.cg.x, Some(Fixed { raw: -2_000_000 }));
    assert_eq!(n.cg.y, Some(Fixed { raw: 0 }));
    assert_eq!(n.cg.z, Some(Fixed { raw: -3_000_000 }));
    let h = HorizontalTailplane::new(&p);
    assert_eq!(h.root_ht.x, Some(Fixed { raw: 92_000_000 }));
    assert_eq!(h.root_ht.z, Some(Fixed { raw: 18_000_000 }));
    assert_eq!(h.chord_ht, Some(Fixed { raw: 10_000_000 }));
    assert_eq!(h.aoa_ht, Some(Fixed { raw: 30_000 }));
}

#[test]
fn wings_are_built_at_the_origin() {
    let p = table();
    let w = Wings::new(&p);
    assert_eq!((w.root.x.raw, w.root.y.raw, w.root.z.raw), (0, 0, 0));
    let a = Aircraft::new(&p);
    assert_eq!((a.wings.root.x.raw, a.wings.root.y.raw, a.wings.root.z.raw), (0, 0, 0));
    let a = a.with_wings_at(WINGS_ROOT);
    assert_eq!(a.wings.root.x.raw, 28_200_000);
    assert_eq!(a.wings.nacelle.k_ng, Some(Fixed { raw: 1_017_000 }));
    let here = w.cg(W_DG, N_Z, &evaluate).unwrap();
    let there = w.at(WINGS_ROOT).cg(W_DG, N_Z, &evaluate).unwrap();
    assert_eq!(there.x.raw, here.x.raw + 28_200_000);
    assert_eq!((there.y.raw, there.z.raw), (here.y.raw, here.z.raw));
}

#[test]
fn new_never_fails() {
    let p = Params::new();
    let w = WingsStructure::new(&p);
    assert_eq!(w.s_w, None);
    assert_eq!(w.wing_span, None);
    let a = Aircraft::new(&p).with_wings_at(WINGS_ROOT);
    assert_eq!(a.fuselage.avionics.w_uav, None);
    assert_eq!(a.tailplane.vt.root_vt.x, None);
}

#[test]
fn nacelle_formula_states_the_equation() {
    let f = Nacelle::new(&table()).weight_formula(W_DG, N_Z).unwrap();
    assert_eq!(f.terms.len(), 1);
    assert_eq!(f.terms[0].coefficient, Fixed { raw: 672_400 });
    assert_eq!(
        f.terms[0].factors,
        vec![
            power(1_017_000, 1_000_000),
            power(12_000_000, 100_000),
            power(5_500_000, 294_000),
            power(3_750_000, 119_000),
            power(5_800_000_000, 611_000),
            power(2_000_000, 984_000),
            power(210_000_000, 224_000),
        ]
    );
}

#[test]
fn wing_formula_divides_by_cosine_and_thickness() {
    let f = WingsStructure::new(&table()).weight_formula(W_DG, N_Z).unwrap();
    assert_eq!(f.terms.len(), 1);
    assert_eq!(f.terms[0].coefficient, Fixed { raw: 5_100 });
    assert_eq!(
        f.terms[0].factors,
        vec![
            power(84_350_000_000, 557_000),
            power(3_750_000, 557_000),
            power(1_000_000_000, 649_000),
            power(8_500_000, 500_000),
            power(1_250_000, 100_000),
            power(250_000_000, 100_000),
            Factor::cosine(Fixed { raw: 420_000 }, -1_000_000),
            power(120_000, -400_000),
        ]
    );
}

#[test]
fn engine_controls_formula_has_two_terms() {
    let f = EngineControls::new(&table()).weight_formula(W_DG, N_Z).unwrap();
    assert_eq!(f.terms.len(), 2);
    assert_eq!(f.terms[0].coefficient, Fixed { raw: 5_000_000 });
    assert_eq!(f.terms[0].factors, vec![power(2_000_000, 1_000_000)]);
    assert_eq!(f.terms[1].coefficient, Fixed { raw: 800_000 });
    assert_eq!(f.terms[1].factors, vec![power(120_000_000, 1_000_000)]);
}

#[test]
fn fuel_system_formula_scales_by_tank_volumes() {
    let p = table_with("v_p", 600_000_000);
    let f = FuelSystem::new(&p).weight_formula(W_DG, N_Z).unwrap();
    assert_eq!(f.terms.len(), 1);
    assert_eq!(f.terms[0].coefficient, Fixed { raw: 2_405_000 });
    assert_eq!(
        f.terms[0].factors,
        vec![
            power(3_400_000_000, 606_000),
            power(3_000_000, 500_000),
            power(4_000_000_000, 1_000_000),
            power(6_800_000_000, -1_000_000),
        ]
    );
    let w = number(FuelSystem::new(&p).weight(W_DG, N_Z, &evaluate).unwrap().get_val());
    let expected = 2.405 * 3400f64.powf(0.606) * 3f64.powf(0.5) * (1.0 + 600.0 / 3400.0)
        / (1.0 + 3400.0 / 3400.0);
    assert!((w - expected).abs() < 1e-4);
}

#[test]
fn furnishing_formula_has_four_terms() {
    let f = Furnishing::new(&table()).weight_formula(W_DG, N_Z).unwrap();
    assert_eq!(f.terms.len(), 4);
    assert_eq!(f.terms[0].coefficient, Fixed { raw: 57_700 });
    assert_eq!(f.terms[1].factors, vec![power(95_000_000, 1_000_000), power(30_000_000, 1_000_000)]);
    assert_eq!(f.terms[2].factors, vec![power(1_110_000, 1_000_000), power(90_000_000, 1_330_000)]);
    assert_eq!(f.terms[3].factors, vec![power(1_020_000, 1_000_000), power(90_000_000, 1_120_000)]);
}

#[test]
fn gross_weight_formulas() {
    let p = Params::new();
    let f = AntiIcing::new(&p).weight_formula(W_DG, N_Z).unwrap();
    assert_eq!(f.terms[0].coefficient, Fixed { raw: 2_000 });
    assert_eq!(f.terms[0].factors, vec![power(84_350_000_000, 1_000_000)]);
    let f = HandlingGear::new(&p).weight_formula(W_DG, N_Z).unwrap();
    assert_eq!(f.terms[0].coefficient, Fixed { raw: 300 });
    assert_eq!(f.terms[0].factors, vec![power(84_350_000_000, 1_000_000)]);
    assert_eq!(lb(AntiIcing::new(&p).weight(W_DG, N_Z, &evaluate)), 168_700_000);
    assert_eq!(lb(HandlingGear::new(&p).weight(W_DG, N_Z, &evaluate)), 25_305_000);
}

#[test]
fn weights_of_the_wing_parts() {
    let w = Wings::new(&table()).at(WINGS_ROOT);
    assert!(close(lb(w.wings_structure.weight(W_DG, N_Z, &evaluate)), 6_920_601_934));
    assert!(close(lb(w.nacelle.weight(W_DG, N_Z, &evaluate)), 2_211_506_783));
    assert!(close(lb(w.engine_controls.weight(W_DG, N_Z, &evaluate)), 106_000_000));
    assert!(close(lb(w.fuel_system.weight(W_DG, N_Z, &evaluate)), 287_555_670));
    assert!(close(lb(w.engine_pneumatic_starter.weight(W_DG, N_Z, &evaluate)), 147_365_892));
}

#[test]
fn weights_of_the_fuselage_parts() {
    let f = Fuselage::new(&table());
    assert!(close(lb(f.fuselage_structure.weight(W_DG, N_Z, &evaluate)), 10_064_315_687));
    assert!(close(lb(f.hydrolic_system.weight(W_DG, N_Z, &evaluate)), 188_748_634));
    assert!(close(lb(f.main_landing_gear.weight(W_DG, N_Z, &evaluate)), 3_715_198_467));
    assert!(close(lb(f.nose_landing_gear.weight(W_DG, N_Z, &evaluate)), 696_778_233));
    assert!(close(lb(f.furnishing.weight(W_DG, N_Z, &evaluate)), 4_505_311_250));
    assert!(close(lb(f.air_conditioning.weight(W_DG, N_Z, &evaluate)), 1_198_410_677));
    assert!(close(lb(f.electrical_systems.weight(W_DG, N_Z, &evaluate)), 911_113_085));
    assert!(close(lb(f.instruments.weight(W_DG, N_Z, &evaluate)), 302_333_392));
    assert!(close(lb(f.avionics.weight(W_DG, N_Z, &evaluate)), 1_689_410_203));
    assert!(close(lb(f.flight_controls.weight(W_DG, N_Z, &evaluate)), 1_037_327_636));
    assert!(close(lb(f.installed_apu.weight(W_DG, N_Z, &evaluate)), 880_000_000));
    assert!(close(lb(f.anti_icing.weight(W_DG, N_Z, &evaluate)), 168_700_000));
    assert!(close(lb(f.handling_gear.weight(W_DG, N_Z, &evaluate)), 25_305_000));
}

#[test]
fn weights_of_the_tail_parts() {
    let t = Tailplane::new(&table());
    assert!(close(lb(t.ht.weight(W_DG, N_Z, &evaluate)), 831_419_180));
    assert!(close(lb(t.vt.weight(W_DG, N_Z, &evaluate)), 817_069_346));
}

#[test]
fn stored_centre_of_gravity_is_given_back() {
    let p = table();
    let cg = Nacelle::new(&p).cg(W_DG, N_Z, &evaluate).unwrap();
    assert_eq!((cg.x.raw, cg.y.raw, cg.z.raw), (-2_000_000, 0, -3_000_000));
    let cg = InstalledApu::new(&p).cg(W_DG, N_Z, &evaluate).unwrap();
    assert_eq!((cg.x.raw, cg.y.raw, cg.z.raw), (95_000_000, 0, 1_000_000));
}

#[test]
fn polynomials_need_no_evaluation() {
    let nothing = |_: &Formula| -> Option<Fixed> { None };
    let p = table();
    let cg = Avionics::new(&p).cg(W_DG, N_Z, &nothing).unwrap();
    assert_eq!((cg.x.raw, cg.y.raw, cg.z.raw), (10_000_000, 0, 500_000));
    assert_eq!(lb(AntiIcing::new(&p).weight(W_DG, N_Z, &nothing)), 168_700_000);
    assert_eq!(lb(HandlingGear::new(&p).weight(W_DG, N_Z, &nothing)), 25_305_000);
    assert_eq!(lb(InstalledApu::new(&p).weight(W_DG, N_Z, &nothing)), 880_000_000);
    assert_eq!(lb(EngineControls::new(&p).weight(W_DG, N_Z, &nothing)), 106_000_000);
    let cg = FuselageStructure::new(&p).cg(W_DG, N_Z, &nothing).unwrap();
    assert_eq!((cg.x.raw, cg.y.raw, cg.z.raw), (44_000_000, 0, 0));
    assert_eq!(
        Avionics::new(&p).weight(W_DG, N_Z, &nothing).err(),
        Some(Failure::OutOfRange { part: Part::Avionics })
    );
}

#[test]
fn value_of_computes_polynomials() {
    let nothing = |_: &Formula| -> Option<Fixed> { None };
    let seven = |_: &Formula| -> Option<Fixed> { Some(Fixed { raw: 7 }) };
    assert_eq!(value_of(&Formula::constant(Fixed { raw: -7 }), &nothing), Some(Fixed { raw: -7 }));
    assert_eq!(value_of(&Formula::sum(vec![]), &nothing), Some(Fixed { raw: 0 }));
    let f = Formula::single(2_500_000, vec![Factor::times(Fixed { raw: 3_000_000 })]);
    assert!(f.is_polynomial());
    assert_eq!(f.polynomial_value(), Some(Fixed { raw: 7_500_000 }));
    assert_eq!(value_of(&f, &seven), Some(Fixed { raw: 7_500_000 }));
    let root = Formula::single(1_000_000, vec![power(9_000_000, 500_000)]);
    assert!(!root.is_polynomial());
    assert_eq!(value_of(&root, &nothing), None);
    assert_eq!(value_of(&root, &seven), Some(Fixed { raw: 7 }));
    assert_eq!(value_of(&root, &evaluate), Some(Fixed { raw: 3_000_000 }));
    let slope = Formula::single(1_000_000, vec![Factor::tangent(Fixed { raw: 0 })]);
    assert!(!slope.is_polynomial());
    let turn = Formula::single(1_000_000, vec![Factor::cosine(Fixed { raw: 0 }, 1_000_000)]);
    assert!(!turn.is_polynomial());
    assert_eq!(value_of(&turn, &evaluate), Some(Fixed { raw: 1_000_000 }));
}

#[test]
fn polynomial_products_round_down_in_turn() {
    let third = Fixed { raw: 333_333 };
    let f = Formula::single(1_000_000, vec![Factor::times(third), Factor::times(third)]);
    assert_eq!(f.polynomial_value(), Some(Fixed { raw: 111_110 }));
    let f = Formula::single(-1, vec![Factor::times(Fixed { raw: 1 })]);
    assert_eq!(f.polynomial_value(), Some(Fixed { raw: -1 }));
    let f = Formula::sum(vec![
        weight_balance::components::formula::Term::new(5_000_000, vec![Factor::times(Fixed { raw: 2_000_000 })]),
        weight_balance::components::formula::Term::new(800_000, vec![Factor::times(Fixed { raw: 120_000_000 })]),
        weight_balance::components::formula::Term::new(-6_000_000, vec![]),
    ]);
    assert_eq!(f.polynomial_value(), Some(Fixed { raw: 100_000_000 }));
}

#[test]
fn polynomial_that_cannot_be_held_has_no_value() {
    let big = Fixed { raw: i64::MAX };
    let f = Formula::single(2_000_000, vec![Factor::times(big)]);
    assert_eq!(f.polynomial_value(), None);
    let f = Formula::single(2_000_000, vec![Factor::times(big), Factor::times(Fixed { raw: 0 })]);
    assert_eq!(f.polynomial_value(), None);
    let f = Formula::sum(vec![
        weight_balance::components::formula::Term::new(i64::MAX, vec![]),
        weight_balance::components::formula::Term::new(1, vec![]),
    ]);
    assert_eq!(f.polynomial_value(), None);
    let nothing = |_: &Formula| -> Option<Fixed> { Some(Fixed { raw: 1 }) };
    assert_eq!(value_of(&f, &nothing), None);
    assert_eq!(
        InstalledApu::new(&table_with("w_apu", i64::MAX)).weight(W_DG, N_Z, &evaluate).err(),
        Some(Failure::OutOfRange { part: Part::InstalledApu })
    );
}

#[test]
fn wing_cg_geometry() {
    let mut p = Params::new();
    p.insert("wing_span".to_string(), Fixed { raw: 80_000_000 });
    p.insert("dihedral".to_string(), Fixed { raw: 87_266 });
    p.insert("sweep_fs".to_string(), Fixed { raw: 349_066 });
    p.insert("sweep_as".to_string(), Fixed { raw: 436_332 });
    p.insert("delta_fs_as".to_string(), Fixed { raw: 3_000_000 });
    p.insert("x_fs".to_string(), Fixed { raw: 2_000_000 });
    let root =
        Point::new(Fixed { raw: 17_400_000 }, Fixed { raw: 0 }, Fixed { raw: 900_000 });
    let wing = Wings::new(&p).at(root);
    assert_eq!((wing.root.x, wing.root.y, wing.root.z), (root.x, root.y, root.z));
    let member = wing.members(W_DG, N_Z).remove(0);
    assert_eq!(member.part, Part::WingsStructure);
    let cg = weight_balance::components::evaluation::locate(
        member.part,
        member.origin,
        &member.position,
        &evaluate,
    )
    .unwrap();
    let station = 0.35 * 40.0;
    let forward = station * 0.349066f64.tan();
    let aft = station * 0.436332f64.tan();
    let x = 0.7 * (3.0 + aft - forward) + forward + 2.0;
    let z = station * 0.087266f64.tan();
    assert!((number(cg.x) - (17.4 + x)).abs() < 2e-6);
    assert_eq!(cg.y.raw, 0);
    assert!((number(cg.z) - (0.9 + z)).abs() < 2e-6);
    assert_eq!(cg.x.raw, 17_400_000 + (x * 1e6).round() as i64);
    assert_eq!(cg.z.raw, 900_000 + (z * 1e6).round() as i64);
    assert_eq!(cg.x.raw, 27_598_487);
    assert_eq!(cg.z.raw, 2_124_835);
    let alone = wing.wings_structure.cg(W_DG, N_Z, &evaluate).unwrap();
    assert_eq!(alone.x.raw, cg.x.raw - 17_400_000);
    assert_eq!(alone.z.raw, cg.z.raw - 900_000);
}

#[test]
fn fuselage_structure_cg_is_a_fraction_of_its_length() {
    let cg = FuselageStructure::new(&table()).cg(W_DG, N_Z, &evaluate).unwrap();
    assert_eq!((cg.x.raw, cg.y.raw, cg.z.raw), (44_000_000, 0, 0));
}

#[test]
fn horizontal_tailplane_cg_geometry() {
    let cg = HorizontalTailplane::new(&table()).cg(W_DG, N_Z, &evaluate).unwrap();
    let z = 18.0 - 0.42 * 10.0 * 0.03f64.tan();
    assert_eq!(cg.x.raw, 96_200_000);
    assert_eq!(cg.y.raw, 0);
    assert!((number(cg.z) - z).abs() < 2e-6);
    assert_eq!(cg.z.raw, 17_873_962);
}

#[test]
fn vertical_tailplane_cg_geometry() {
    let cg = VerticalTailplane::new(&table()).cg(W_DG, N_Z, &evaluate).unwrap();
    let x = 84.0 + 0.42 * 12.0 + 0.55 * 14.0 * 0.65f64.tan();
    assert!((number(cg.x) - x).abs() < 2e-6);
    assert_eq!(cg.y.raw, 0);
    assert_eq!(cg.z.raw, 13_700_000);
}

#[test]
fn weight_is_pure() {
    let p = table();
    let wings = Wings::new(&p);
    let once = wings.wings_structure.weight(W_DG, N_Z, &evaluate);
    let again = wings.wings_structure.weight(W_DG, N_Z, &evaluate);
    assert_eq!(lb(once), lb(again));
    assert_eq!(lb(wings.weight(W_DG, N_Z, &evaluate)), lb(wings.weight(W_DG, N_Z, &evaluate)));
    let a = Aircraft::new(&p).with_wings_at(WINGS_ROOT);
    let first = a.report(W_DG, N_Z, &evaluate).unwrap();
    let second = a.report(W_DG, N_Z, &evaluate).unwrap();
    assert_eq!(first.weight.get_val(), second.weight.get_val());
    assert_eq!(first.cg.x, second.cg.x);
    assert_eq!(first.cg.y, second.cg.y);
    assert_eq!(first.cg.z, second.cg.z);
}

#[test]
fn group_weight_is_the_sum_of_its_parts() {
    let p = table();
    let w = Wings::new(&p).at(WINGS_ROOT);
    let parts = lb(w.wings_structure.weight(W_DG, N_Z, &evaluate))
        + lb(w.nacelle.weight(W_DG, N_Z, &evaluate))
        + lb(w.engine_controls.weight(W_DG, N_Z, &evaluate))
        + lb(w.fuel_system.weight(W_DG, N_Z, &evaluate))
        + lb(w.engine_pneumatic_starter.weight(W_DG, N_Z, &evaluate));
    assert_eq!(lb(w.weight(W_DG, N_Z, &evaluate)), parts);
    assert_eq!(w.balance(W_DG, N_Z, &evaluate).unwrap().weight().get_val().raw, parts);
    let t = Tailplane::new(&p);
    let parts = lb(t.ht.weight(W_DG, N_Z, &evaluate)) + lb(t.vt.weight(W_DG, N_Z, &evaluate));
    assert_eq!(lb(t.weight(W_DG, N_Z, &evaluate)), parts);
    let f = Fuselage::new(&p);
    let total: i64 =
        contributions(&f.members(W_DG, N_Z)).iter().map(|c| c.weight.get_val().raw).sum();
    assert_eq!(lb(f.weight(W_DG, N_Z, &evaluate)), total);
}

#[test]
fn aircraft_weight_is_the_sum_of_its_groups() {
    let p = table();
    let a = Aircraft::new(&p).with_wings_at(WINGS_ROOT);
    let groups = lb(a.wings.weight(W_DG, N_Z, &evaluate))
        + lb(a.fuselage.weight(W_DG, N_Z, &evaluate))
        + lb(a.tailplane.weight(W_DG, N_Z, &evaluate));
    assert_eq!(lb(a.weight(W_DG, N_Z, &evaluate)), groups);
    let b = a.balance(W_DG, N_Z, &evaluate).unwrap();
    assert_eq!(b.weight().get_val().raw, groups);
    assert_eq!(a.report(W_DG, N_Z, &evaluate).unwrap().weight.get_val().raw, groups);
}

#[test]
fn other_groupings_add_up_the_same_parts() {
    let p = table();
    let w = Wings::new(&p).at(WINGS_ROOT);
    let f = Fuselage::new(&p);
    let engines = lb(w.nacelle.weight(W_DG, N_Z, &evaluate))
        + lb(w.engine_controls.weight(W_DG, N_Z, &evaluate))
        + lb(w.engine_pneumatic_starter.weight(W_DG, N_Z, &evaluate))
        + lb(w.fuel_system.weight(W_DG, N_Z, &evaluate));
    assert_eq!(lb(Engines::new(&p).weight(W_DG, N_Z, &evaluate)), engines);
    let gear = lb(f.main_landing_gear.weight(W_DG, N_Z, &evaluate))
        + lb(f.nose_landing_gear.weight(W_DG, N_Z, &evaluate));
    assert_eq!(lb(LandingGear::new(&p).weight(W_DG, N_Z, &evaluate)), gear);
    let systems = lb(f.weight(W_DG, N_Z, &evaluate))
        - gear
        - lb(f.fuselage_structure.weight(W_DG, N_Z, &evaluate));
    assert_eq!(lb(Systems::new(&p).weight(W_DG, N_Z, &evaluate)), systems);
    let cg = LandingGear::new(&p).cg(W_DG, N_Z, &evaluate).unwrap();
    assert!(12_000_000 <= cg.x.raw && cg.x.raw <= 52_000_000);
    assert_eq!(cg.z.raw, -6_000_000);
}

#[test]
fn group_cg_is_moment_over_weight() {
    let p = table();
    let f = Fuselage::new(&p);
    let items = contributions(&f.members(W_DG, N_Z));
    let weight: i128 = items.iter().map(|c| c.weight.get_val().raw as i128).sum();
    let mx: i128 = items.iter().map(|c| c.weight.get_val().raw as i128 * c.cg.x.raw as i128).sum();
    let mz: i128 = items.iter().map(|c| c.weight.get_val().raw as i128 * c.cg.z.raw as i128).sum();
    let cg = f.cg(W_DG, N_Z, &evaluate).unwrap();
    assert_eq!(cg.x.raw as i128, mx.div_euclid(weight));
    assert_eq!(cg.y.raw, 0);
    assert_eq!(cg.z.raw as i128, mz.div_euclid(weight));
    let m = f.pos_times_weight(W_DG, N_Z, &evaluate).unwrap();
    assert_eq!((m.x, m.y, m.z), (mx, 0, mz));
}

#[test]
fn group_cg_lies_between_its_parts() {
    let p = table();
    let w = Wings::new(&p).at(WINGS_ROOT);
    let items = contributions(&w.members(W_DG, N_Z));
    let cg = w.cg(W_DG, N_Z, &evaluate).unwrap();
    let lo = items.iter().map(|c| c.cg.x.raw).min().unwrap();
    let hi = items.iter().map(|c| c.cg.x.raw).max().unwrap();
    assert!(lo <= cg.x.raw && cg.x.raw <= hi);
    let lo = items.iter().map(|c| c.cg.z.raw).min().unwrap();
    let hi = items.iter().map(|c| c.cg.z.raw).max().unwrap();
    assert!(lo <= cg.z.raw && cg.z.raw <= hi);
    assert_eq!(lo, -3_000_000);
    assert_eq!(items[1].cg.x.raw, 26_200_000);
}

#[test]
fn weightless_group_has_no_cg() {
    let mut p = table();
    p.insert("k_uht".to_string(), Fixed { raw: 0 });
    p.insert("s_vt".to_string(), Fixed { raw: 0 });
    let t = Tailplane::new(&p);
    assert_eq!(lb(t.weight(W_DG, N_Z, &evaluate)), 0);
    assert_eq!(
        t.cg(W_DG, N_Z, &evaluate).err(),
        Some(Failure::InvalidGeometry { part: Part::Tailplane })
    );
    let b = t.balance(W_DG, N_Z, &evaluate).unwrap();
    assert!(b.is_weightless());
    assert!(b.cg().is_none());
    let m = t.pos_times_weight(W_DG, N_Z, &evaluate).unwrap();
    assert_eq!((m.x, m.y, m.z), (0, 0, 0));
}

#[test]
fn weightless_group_leaves_the_aircraft_without_cg() {
    let mut p = table();
    p.insert("k_uht".to_string(), Fixed { raw: 0 });
    p.insert("s_vt".to_string(), Fixed { raw: 0 });
    let a = Aircraft::new(&p).with_wings_at(WINGS_ROOT);
    assert!(a.weight(W_DG, N_Z, &evaluate).is_ok());
    assert!(a.balance(W_DG, N_Z, &evaluate).is_ok());
    assert_eq!(
        a.cg(W_DG, N_Z, &evaluate).err(),
        Some(Failure::InvalidGeometry { part: Part::Aircraft })
    );
    assert_eq!(
        a.report(W_DG, N_Z, &evaluate).err(),
        Some(Failure::InvalidGeometry { part: Part::Aircraft })
    );
}

#[test]
fn absent_parameter_fails_part_and_groups() {
    let p = table_without("k_ng");
    let failure = missing(Part::Nacelle, "k_ng");
    assert_eq!(Nacelle::new(&p).weight_formula(W_DG, N_Z).err(), Some(failure));
    assert_eq!(Nacelle::new(&p).weight(W_DG, N_Z, &evaluate).err(), Some(failure));
    assert!(Nacelle::new(&p).cg(W_DG, N_Z, &evaluate).is_ok());
    let w = Wings::new(&p).at(WINGS_ROOT);
    assert_eq!(w.weight(W_DG, N_Z, &evaluate).err(), Some(failure));
    assert_eq!(w.balance(W_DG, N_Z, &evaluate).err(), Some(failure));
    assert_eq!(w.pos_times_weight(W_DG, N_Z, &evaluate).err(), Some(failure));
    assert_eq!(w.cg(W_DG, N_Z, &evaluate).err(), Some(failure));
    assert_eq!(Engines::new(&p).weight(W_DG, N_Z, &evaluate).err(), Some(failure));
    let a = Aircraft::new(&p).with_wings_at(WINGS_ROOT);
    assert_eq!(a.weight(W_DG, N_Z, &evaluate).err(), Some(failure));
    assert_eq!(a.balance(W_DG, N_Z, &evaluate).err(), Some(failure));
    assert_eq!(a.pos_times_weight(W_DG, N_Z, &evaluate).err(), Some(failure));
    assert_eq!(a.cg(W_DG, N_Z, &evaluate).err(), Some(failure));
    assert_eq!(a.report(W_DG, N_Z, &evaluate).err(), Some(failure));
    assert!(a.fuselage.weight(W_DG, N_Z, &evaluate).is_ok());
    assert!(a.tailplane.cg(W_DG, N_Z, &evaluate).is_ok());
}

#[test]
fn absent_coordinate_fails_cg_and_balance() {
    let p = table_without("y_cg_avionics");
    let failure = missing(Part::Avionics, "y_cg_avionics");
    let f = Fuselage::new(&p);
    assert!(f.avionics.weight(W_DG, N_Z, &evaluate).is_ok());
    assert_eq!(f.avionics.cg_formula().err(), Some(failure));
    assert_eq!(f.avionics.cg(W_DG, N_Z, &evaluate).err(), Some(failure));
    assert!(f.weight(W_DG, N_Z, &evaluate).is_ok());
    assert_eq!(f.balance(W_DG, N_Z, &evaluate).err(), Some(failure));
    assert_eq!(f.cg(W_DG, N_Z, &evaluate).err(), Some(failure));
    let a = Aircraft::new(&p).with_wings_at(WINGS_ROOT);
    assert!(a.weight(W_DG, N_Z, &evaluate).is_ok());
    assert_eq!(a.report(W_DG, N_Z, &evaluate).err(), Some(failure));
}

#[test]
fn first_absent_parameter_is_named() {
    let mut p = Params::new();
    assert_eq!(
        MainLandingGear::new(&p).weight(W_DG, N_Z, &evaluate).err(),
        Some(missing(Part::MainLandingGear, "w_l"))
    );
    p.insert("w_l".to_string(), Fixed { raw: 1 });
    p.insert("k_mp".to_string(), Fixed { raw: 1 });
    assert_eq!(
        MainLandingGear::new(&p).weight(W_DG, N_Z, &evaluate).err(),
        Some(missing(Part::MainLandingGear, "n_l"))
    );
    assert_eq!(
        MainLandingGear::new(&p).cg(W_DG, N_Z, &evaluate).err(),
        Some(missing(Part::MainLandingGear, "x_cg_main_landing_gear"))
    );
    assert_eq!(
        Fuselage::new(&p).weight(W_DG, N_Z, &evaluate).err(),
        Some(missing(Part::FuselageStructure, "k_door"))
    );
    assert_eq!(
        Aircraft::new(&p).with_wings_at(WINGS_ROOT).weight(W_DG, N_Z, &evaluate).err(),
        Some(missing(Part::WingsStructure, "s_w"))
    );
    assert_eq!(
        VerticalTailplane::new(&p).cg(W_DG, N_Z, &evaluate).err(),
        Some(missing(Part::VerticalTailplane, "x_root_vt"))
    );
}

#[test]
fn every_part_names_its_first_input() {
    let p = Params::new();
    let w = Wings::new(&p).at(WINGS_ROOT);
    let f = Fuselage::new(&p);
    let t = Tailplane::new(&p);
    let named = vec![
        (w.wings_structure.weight(W_DG, N_Z, &evaluate).err(), Part::WingsStructure, "s_w"),
        (w.nacelle.weight(W_DG, N_Z, &evaluate).err(), Part::Nacelle, "k_ng"),
        (w.engine_controls.weight(W_DG, N_Z, &evaluate).err(), Part::EngineControls, "l_ec"),
        (w.fuel_system.weight(W_DG, N_Z, &evaluate).err(), Part::FuelSystem, "v_t"),
        (
            w.engine_pneumatic_starter.weight(W_DG, N_Z, &evaluate).err(),
            Part::EnginePneumaticStarter,
            "n_en",
        ),
        (f.fuselage_structure.weight(W_DG, N_Z, &evaluate).err(), Part::FuselageStructure, "k_door"),
        (f.hydrolic_system.weight(W_DG, N_Z, &evaluate).err(), Part::HydrolicSystem, "n_f"),
        (f.nose_landing_gear.weight(W_DG, N_Z, &evaluate).err(), Part::NoseLandingGear, "w_l"),
        (f.furnishing.weight(W_DG, N_Z, &evaluate).err(), Part::Furnishing, "n_c"),
        (f.air_conditioning.weight(W_DG, N_Z, &evaluate).err(), Part::AirConditioning, "n_p"),
        (f.electrical_systems.weight(W_DG, N_Z, &evaluate).err(), Part::ElectricalSystems, "r_kva"),
        (f.instruments.weight(W_DG, N_Z, &evaluate).err(), Part::Instruments, "k_r"),
        (f.avionics.weight(W_DG, N_Z, &evaluate).err(), Part::Avionics, "w_uav"),
        (f.flight_controls.weight(W_DG, N_Z, &evaluate).err(), Part::FlightControls, "n_f"),
        (f.installed_apu.weight(W_DG, N_Z, &evaluate).err(), Part::InstalledApu, "w_apu"),
        (t.ht.weight(W_DG, N_Z, &evaluate).err(), Part::HorizontalTailplane, "k_uht"),
        (t.vt.weight(W_DG, N_Z, &evaluate).err(), Part::VerticalTailplane, "h_t"),
    ];
    for (failure, part, symbol) in named {
        assert_eq!(failure, Some(missing(part, symbol)));
    }
    assert!(f.anti_icing.weight(W_DG, N_Z, &evaluate).is_ok());
    assert!(f.handling_gear.weight(W_DG, N_Z, &evaluate).is_ok());
    assert_eq!(
        f.anti_icing.cg(W_DG, N_Z, &evaluate).err(),
        Some(missing(Part::AntiIcing, "x_cg_anti_icing"))
    );
    assert_eq!(
        f.fuselage_structure.cg(W_DG, N_Z, &evaluate).err(),
        Some(missing(Part::FuselageStructure, "pos_cg_f"))
    );
    assert_eq!(
        w.wings_structure.cg(W_DG, N_Z, &evaluate).err(),
        Some(missing(Part::WingsStructure, "delta_fs_as"))
    );
}

#[test]
fn quarter_turn_sweep_is_invalid_geometry() {
    let invalid = Some(Failure::InvalidGeometry { part: Part::WingsStructure });
    let w = WingsStructure::new(&table_with("sweep", 1_570_797));
    assert_eq!(w.weight(W_DG, N_Z, &evaluate).err(), invalid);
    let w = WingsStructure::new(&table_with("sweep", -1_570_797));
    assert_eq!(w.weight(W_DG, N_Z, &evaluate).err(), invalid);
    let w = WingsStructure::new(&table_with("sweep", 1_570_796));
    assert!(w.weight(W_DG, N_Z, &evaluate).is_ok());
    let w = WingsStructure::new(&table_with("dihedral", 1_600_000));
    assert!(w.weight(W_DG, N_Z, &evaluate).is_ok());
    assert_eq!(w.cg(W_DG, N_Z, &evaluate).err(), invalid);
    let w = WingsStructure::new(&table_with("sweep_as", -2_000_000));
    assert_eq!(w.cg(W_DG, N_Z, &evaluate).err(), invalid);
}

#[test]
fn zero_span_is_invalid_geometry() {
    let w = WingsStructure::new(&table_with("wing_span", 0));
    assert_eq!(
        w.cg(W_DG, N_Z, &evaluate).err(),
        Some(Failure::InvalidGeometry { part: Part::WingsStructure })
    );
    assert!(w.weight(W_DG, N_Z, &evaluate).is_ok());
}

#[test]
fn divisors_must_be_positive() {
    let cases: Vec<(&str, i64, Part)> = vec![
        ("t_c_ratio_root", 0, Part::WingsStructure),
        ("t_c_ratio_root", -120_000, Part::WingsStructure),
        ("v_t", 0, Part::FuelSystem),
        ("v_i", -3_400_000_000, Part::FuelSystem),
        ("d", 0, Part::FuselageStructure),
        ("n_mss", 0, Part::MainLandingGear),
        ("s_ht", 0, Part::HorizontalTailplane),
        ("b_ht", 0, Part::HorizontalTailplane),
        ("f_w", -36_000_000, Part::HorizontalTailplane),
        ("l_ht", -1, Part::HorizontalTailplane),
        ("sweep_ht", 3_141_593, Part::HorizontalTailplane),
        ("h_v", 0, Part::VerticalTailplane),
        ("l_vt", 0, Part::VerticalTailplane),
        ("t_c_ratio_root_v", 0, Part::VerticalTailplane),
        ("sweep_vt", 1_570_797, Part::VerticalTailplane),
    ];
    for (symbol, value, part) in cases {
        let a = Aircraft::new(&table_with(symbol, value)).with_wings_at(WINGS_ROOT);
        assert_eq!(
            a.weight(W_DG, N_Z, &evaluate).err(),
            Some(Failure::InvalidGeometry { part })
        );
    }
    let f = FlightControls::new(&table_with("n_f", 0));
    assert_eq!(
        f.weight(W_DG, N_Z, &evaluate).err(),
        Some(Failure::InvalidGeometry { part: Part::FlightControls })
    );
    let f = FlightControls::new(&table_with("n_m", -5_000_000));
    assert_eq!(
        f.weight(W_DG, N_Z, &evaluate).err(),
        Some(Failure::InvalidGeometry { part: Part::FlightControls })
    );
    let h = HorizontalTailplane::new(&table_with("aoa_ht", 1_570_797));
    assert_eq!(
        h.cg(W_DG, N_Z, &evaluate).err(),
        Some(Failure::InvalidGeometry { part: Part::HorizontalTailplane })
    );
    let v = VerticalTailplane::new(&table_with("sweep_vt", 1_570_797));
    assert_eq!(
        v.cg(W_DG, N_Z, &evaluate).err(),
        Some(Failure::InvalidGeometry { part: Part::VerticalTailplane })
    );
}

#[test]
fn negative_weight_is_refused() {
    let p = table_with("k_ng", -1_017_000);
    let failure = Some(Failure::NegativeWeight { part: Part::Nacelle });
    assert_eq!(Nacelle::new(&p).weight(W_DG, N_Z, &evaluate).err(), failure);
    assert_eq!(Wings::new(&p).weight(W_DG, N_Z, &evaluate).err(), failure);
    assert_eq!(
        Aircraft::new(&p).with_wings_at(WINGS_ROOT).report(W_DG, N_Z, &evaluate).err(),
        failure
    );
    let p = table_with("l_ec", -1_000_000_000);
    assert_eq!(
        EngineControls::new(&p).weight(W_DG, N_Z, &evaluate).err(),
        Some(Failure::NegativeWeight { part: Part::EngineControls })
    );
    let p = table_with("w_apu", -1);
    assert_eq!(
        InstalledApu::new(&p).weight(W_DG, N_Z, &evaluate).err(),
        Some(Failure::NegativeWeight { part: Part::InstalledApu })
    );
    let below = Fixed { raw: -84_350_000_000 };
    assert_eq!(
        AntiIcing::new(&table()).weight(below, N_Z, &evaluate).err(),
        Some(Failure::NegativeWeight { part: Part::AntiIcing })
    );
}

#[test]
fn value_that_is_no_number_is_out_of_range() {
    let p = table_with("lambda", -2_000_000);
    assert_eq!(
        WingsStructure::new(&p).weight(W_DG, N_Z, &evaluate).err(),
        Some(Failure::OutOfRange { part: Part::WingsStructure })
    );
    let p = table_with("s_n", -210_000_000);
    assert_eq!(
        Aircraft::new(&p).with_wings_at(WINGS_ROOT).weight(W_DG, N_Z, &evaluate).err(),
        Some(Failure::OutOfRange { part: Part::Nacelle })
    );
    let nothing = |_: &Formula| -> Option<Fixed> { None };
    assert_eq!(
        Avionics::new(&table()).weight(W_DG, N_Z, &nothing).err(),
        Some(Failure::OutOfRange { part: Part::Avionics })
    );
}

#[test]
fn sum_that_cannot_be_held_is_out_of_range() {
    let p = table_with("lambda", i64::MAX);
    assert_eq!(
        WingsStructure::new(&p).weight_formula(W_DG, N_Z).err(),
        Some(Failure::OutOfRange { part: Part::WingsStructure })
    );
    let p = table_with("b_w", i64::MAX);
    assert_eq!(
        HydrolicSystem::new(&p).weight_formula(W_DG, N_Z).err(),
        Some(Failure::OutOfRange { part: Part::HydrolicSystem })
    );
    assert_eq!(
        Instruments::new(&p).weight_formula(W_DG, N_Z).err(),
        Some(Failure::OutOfRange { part: Part::Instruments })
    );
    let huge = |_: &Formula| -> Option<Fixed> { Some(Fixed { raw: i64::MAX }) };
    let t = Tailplane::new(&table());
    assert_eq!(
        t.weight(W_DG, N_Z, &huge).err(),
        Some(Failure::OutOfRange { part: Part::Tailplane })
    );
    assert_eq!(
        t.balance(W_DG, N_Z, &huge).err(),
        Some(Failure::OutOfRange { part: Part::Tailplane })
    );
    let f = Fuselage::new(&table_with("x_cg_avionics", 1));
    assert_eq!(
        f.weight(W_DG, N_Z, &huge).err(),
        Some(Failure::OutOfRange { part: Part::Fuselage })
    );
}

#[test]
fn empty_weight_of_a_mid_size_jet() {
    let p = table();
    let aircraft = Aircraft::new(&p).with_wings_at(WINGS_ROOT);
    let report = aircraft.report(W_DG, N_Z, &evaluate).unwrap();
    let weight = number(report.weight.get_val());
    let gross = number(W_DG);
    assert!(weight > 0.0);
    assert!(0.30 * gross <= weight && weight <= 0.60 * gross);
    assert!((weight - 36_704.471068).abs() < 1e-3);
    let items = contributions(&members_of_the_aircraft(&p));
    assert_eq!(items.len(), 20);
    let forward = items.iter().map(|c| c.cg.x.raw).min().unwrap();
    let aft = items.iter().map(|c| c.cg.x.raw).max().unwrap();
    assert_eq!(forward, 8_000_000);
    assert_eq!(aft, 96_200_000);
    assert!(forward <= report.cg.x.raw && report.cg.x.raw <= aft);
    let total: i128 = items.iter().map(|c| c.weight.get_val().raw as i128).sum();
    let moment: i128 =
        items.iter().map(|c| c.weight.get_val().raw as i128 * c.cg.x.raw as i128).sum();
    assert_eq!(report.weight.get_val().raw as i128, total);
    assert_eq!(report.cg.x.raw as i128, moment.div_euclid(total));
    assert_eq!(report.cg.y.raw, 0);
    let cg = aircraft.cg(W_DG, N_Z, &evaluate).unwrap();
    assert_eq!((cg.x, cg.y, cg.z), (report.cg.x, report.cg.y, report.cg.z));
    let groups = vec![
        aircraft.wings.cg(W_DG, N_Z, &evaluate).unwrap().x.raw,
        aircraft.fuselage.cg(W_DG, N_Z, &evaluate).unwrap().x.raw,
        aircraft.tailplane.cg(W_DG, N_Z, &evaluate).unwrap().x.raw,
    ];
    assert!(*groups.iter().min().unwrap() <= cg.x.raw);
    assert!(cg.x.raw <= *groups.iter().max().unwrap());
}
