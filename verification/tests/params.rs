use weight_balance::params::ParamError;
use weight_balance::params::Params;
use weight_balance::utils::extract_params;
use weight_balance::utils::fixed::Fixed;

fn record(fields: &[&str]) -> Vec<String> {
    fields.iter().map(|f| f.to_string()).collect()
}

#[test]
fn new_table_is_empty() {
    let p = Params::new();
    assert_eq!(p.get("n_z"), None);
    assert_eq!(p.get(""), None);
}

#[test]
fn insert_then_get() {
    let mut p = Params::new();
    p.insert("n_z".to_string(), Fixed { raw: 3_750_000 });
    p.insert("s_w".to_string(), Fixed { raw: 1_000_000_000 });
    assert_eq!(p.get("n_z"), Some(Fixed { raw: 3_750_000 }));
    assert_eq!(p.get("s_w"), Some(Fixed { raw: 1_000_000_000 }));
    assert_eq!(p.get("s"), None);
    assert_eq!(p.get("N_Z"), None);
}

#[test]
fn last_write_wins() {
    let mut p = Params::new();
    p.insert("ar".to_string(), Fixed { raw: 1 });
    p.insert("sweep".to_string(), Fixed { raw: 2 });
    p.insert("ar".to_string(), Fixed { raw: 3 });
    assert_eq!(p.get("ar"), Some(Fixed { raw: 3 }));
    assert_eq!(p.get("sweep"), Some(Fixed { raw: 2 }));
}

#[test]
fn with_records_enters_in_order() {
    let records = vec![
        record(&["n_z", "3.75"]),
        record(&["ar", "8.5", "aspect ratio"]),
        record(&["n_z", "4"]),
    ];
    let p = Params::new().with_records(&records).unwrap();
    assert_eq!(p.get("n_z"), Some(Fixed { raw: 4_000_000 }));
    assert_eq!(p.get("ar"), Some(Fixed { raw: 8_500_000 }));
}

#[test]
fn with_records_keeps_what_was_there() {
    let mut p = Params::new();
    p.insert("ar".to_string(), Fixed { raw: 1 });
    p.insert("d".to_string(), Fixed { raw: 2 });
    let p = p.with_records(&vec![record(&["ar", "9"])]).unwrap();
    assert_eq!(p.get("ar"), Some(Fixed { raw: 9_000_000 }));
    assert_eq!(p.get("d"), Some(Fixed { raw: 2 }));
}

#[test]
fn with_records_reports_short_record() {
    let records = vec![record(&["n_z", "3.75"]), record(&["ar"]), record(&["x", "bad"])];
    let r = Params::new().with_records(&records);
    assert_eq!(r.err(), Some(ParamError::TooFewFields { record: 1 }));
    let r = Params::new().with_records(&vec![record(&[])]);
    assert_eq!(r.err(), Some(ParamError::TooFewFields { record: 0 }));
}

#[test]
fn with_records_reports_bad_number() {
    let records = vec![record(&["n_z", "3.75"]), record(&["ar", "8.5"]), record(&["x", "1e"])];
    let r = Params::new().with_records(&records);
    assert_eq!(r.err(), Some(ParamError::BadNumber { record: 2 }));
    let r = Params::new().with_records(&vec![record(&["x", ""])]);
    assert_eq!(r.err(), Some(ParamError::BadNumber { record: 0 }));
}

#[test]
fn extract_params_skips_the_header() {
    let text = "symbol,value\nn_z,3.75\nar,8.5\n";
    let p = extract_params(text.as_bytes()).unwrap();
    assert_eq!(p.get("n_z"), Some(Fixed { raw: 3_750_000 }));
    assert_eq!(p.get("ar"), Some(Fixed { raw: 8_500_000 }));
    assert_eq!(p.get("symbol"), None);
}

#[test]
fn extract_params_reads_quoted_fields() {
    let text = "symbol,value,note\n\"k_door\",\"1.06\",\"one side door, aft\"\nd,11,\n";
    let p = extract_params(text.as_bytes()).unwrap();
    assert_eq!(p.get("k_door"), Some(Fixed { raw: 1_060_000 }));
    assert_eq!(p.get("d"), Some(Fixed { raw: 11_000_000 }));
}

#[test]
fn extract_params_last_write_wins() {
    let text = "symbol,value\nar,1\nar,2\n";
    let p = extract_params(text.as_bytes()).unwrap();
    assert_eq!(p.get("ar"), Some(Fixed { raw: 2_000_000 }));
}

#[test]
fn extract_params_of_nothing_is_empty() {
    let p = extract_params(b"").unwrap();
    assert_eq!(p.get("ar"), None);
    let p = extract_params(b"symbol,value\n").unwrap();
    assert_eq!(p.get("symbol"), None);
}

#[test]
fn extract_params_reports_uneven_records() {
    let text = "symbol,value\nar,1\nd,2,3\n";
    assert_eq!(extract_params(text.as_bytes()).err(), Some(ParamError::Malformed));
}

#[test]
fn extract_params_reports_bad_text() {
    let data: &[u8] = b"symbol,value\nar,\xff\xfe\n";
    assert_eq!(extract_params(data).err(), Some(ParamError::Malformed));
}

#[test]
fn extract_params_reports_bad_number() {
    let text = "symbol,value\nar,1\nd,eleven\n";
    assert_eq!(extract_params(text.as_bytes()).err(), Some(ParamError::BadNumber { record: 1 }));
}

#[test]
fn extract_params_reports_single_column() {
    let text = "symbol\nar\n";
    assert_eq!(extract_params(text.as_bytes()).err(), Some(ParamError::TooFewFields { record: 0 }));
}

#[test]
fn extend_params_adds_a_second_list() {
    let weights = "symbol,value\nar,8.5\nd,11\n";
    let balance = "symbol,value\nx_cg_avionics,10\nd,12\n";
    let p = extract_params(weights.as_bytes()).unwrap();
    let p = weight_balance::utils::extend_params(p, balance.as_bytes()).unwrap();
    assert_eq!(p.get("ar"), Some(Fixed { raw: 8_500_000 }));
    assert_eq!(p.get("x_cg_avionics"), Some(Fixed { raw: 10_000_000 }));
    assert_eq!(p.get("d"), Some(Fixed { raw: 12_000_000 }));
    let p = weight_balance::utils::extend_params(p, b"symbol,value\nd,x\n");
    assert_eq!(p.err(), Some(ParamError::BadNumber { record: 0 }));
}
