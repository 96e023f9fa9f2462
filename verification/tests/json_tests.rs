use vpscheck::json::to_json;
use vpscheck::metrics::Metrics;

fn sample() -> Metrics {
    Metrics {
        os_name: "Arch Linux".to_string(),
        uptime_days: 12,
        load_one_centi: 61,
        load_five_centi: 33,
        load_fifteen_centi: 20,
        cpu_centi: 1234,
        mem_used: "1.50 GiB".to_string(),
        mem_total: "7.64 GiB".to_string(),
        disk_used_gib_centi: 1234,
        disk_total_gib_centi: 47851,
        rx_rate: 125000,
        tx_rate: 7300,
        rx_total_gib_centi: 154,
        tx_total_gib_centi: 23,
        swap_used_mib_centi: 0,
        swap_total_mib_centi: 204800,
        tcp: 12,
        udp: 3,
        processes: 181,
        threads: 412,
    }
}

#[test]
fn encodes_every_field_as_valid_json() {
    let text = to_json(&sample());
    let v: serde_json::Value = serde_json::from_str(&text).unwrap();
    assert_eq!(v["os_name"].as_str(), Some("Arch Linux"));
    assert_eq!(v["uptime_days"].as_u64(), Some(12));
    assert_eq!(v["load"][0].as_f64(), Some(0.61));
    assert_eq!(v["load"][1].as_f64(), Some(0.33));
    assert_eq!(v["load"][2].as_f64(), Some(0.20));
    assert_eq!(v["cpu"].as_f64(), Some(12.34));
    assert_eq!(v["mem_used"].as_str(), Some("1.50 GiB"));
    assert_eq!(v["mem_total"].as_str(), Some("7.64 GiB"));
    assert_eq!(v["disk_used_gib"].as_f64(), Some(12.34));
    assert_eq!(v["disk_total_gib"].as_f64(), Some(478.51));
    assert_eq!(v["rx_rate"].as_u64(), Some(125000));
    assert_eq!(v["tx_rate"].as_u64(), Some(7300));
    assert_eq!(v["rx_total_gib"].as_f64(), Some(1.54));
    assert_eq!(v["tx_total_gib"].as_f64(), Some(0.23));
    assert_eq!(v["swap_used_mib"].as_f64(), Some(0.0));
    assert_eq!(v["swap_total_mib"].as_f64(), Some(2048.0));
    assert_eq!(v["tcp"].as_u64(), Some(12));
    assert_eq!(v["udp"].as_u64(), Some(3));
    assert_eq!(v["processes"].as_u64(), Some(181));
    assert_eq!(v["threads"].as_u64(), Some(412));
}

#[test]
fn cpu_is_a_percentage_inside_range() {
    let text = to_json(&sample());
    let v: serde_json::Value = serde_json::from_str(&text).unwrap();
    let cpu = v["cpu"].as_f64().unwrap();
    assert!((0.0..=100.0).contains(&cpu));
}

#[test]
fn exact_text_of_an_all_zero_record() {
    let m = Metrics {
        os_name: "A".to_string(),
        uptime_days: 0,
        load_one_centi: 0,
        load_five_centi: 0,
        load_fifteen_centi: 0,
        cpu_centi: 0,
        mem_used: "0.00 MiB".to_string(),
        mem_total: "0.00 MiB".to_string(),
        disk_used_gib_centi: 0,
        disk_total_gib_centi: 0,
        rx_rate: 0,
        tx_rate: 0,
        rx_total_gib_centi: 0,
        tx_total_gib_centi: 0,
        swap_used_mib_centi: 0,
        swap_total_mib_centi: 0,
        tcp: 0,
        udp: 0,
        processes: 0,
        threads: 0,
    };
    let expected = "{\"os_name\":\"A\",\"uptime_days\":0,\"load\":[0.00,0.00,0.00],\"cpu\":0.00,\"mem_used\":\"0.00 MiB\",\"mem_total\":\"0.00 MiB\",\"disk_used_gib\":0.00,\"disk_total_gib\":0.00,\"rx_rate\":0,\"tx_rate\":0,\"rx_total_gib\":0.00,\"tx_total_gib\":0.00,\"swap_used_mib\":0.00,\"swap_total_mib\":0.00,\"tcp\":0,\"udp\":0,\"processes\":0,\"threads\":0}";
    assert_eq!(to_json(&m), expected);
}

#[test]
fn string_values_are_escaped_and_decode_back() {
    let mut m = sample();
    m.os_name = "He said \"hi\" \\ bye".to_string();
    let text = to_json(&m);
    let v: serde_json::Value = serde_json::from_str(&text).unwrap();
    assert_eq!(v["os_name"].as_str(), Some("He said \"hi\" \\ bye"));
}
