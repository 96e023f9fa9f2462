use vpscheck::metrics::{build_metrics, CollectionError, FirstReading, SecondReading};

fn first() -> FirstReading {
    FirstReading {
        net: vec![(1000, 500)],
        disks: vec![(1073741824, 536870912)],
        mem_used: 1610612736,
        mem_total: 1073741823,
        swap_used: 524288,
        swap_total: 1048576,
    }
}

fn second() -> SecondReading {
    SecondReading {
        net: vec![(1500, 600)],
        cpu_centi: 1234,
        uptime_secs: 259205,
        load_one_centi: 61,
        load_five_centi: 33,
        load_fifteen_centi: 20,
        os_release: Some(
            "NAME=\"Debian GNU/Linux\"\nPRETTY_NAME=\"Debian GNU/Linux 12 (bookworm)\"\n"
                .to_string(),
        ),
        tcp4: 3,
        tcp6: 2,
        udp4: 1,
        udp6: 0,
        processes: 4,
        tasks: vec![Some(3), None, Some(0), Some(1)],
    }
}

#[test]
fn rates_are_the_counter_difference() {
    let m = build_metrics(&first(), &second());
    assert_eq!(m.rx_rate, 500);
    assert_eq!(m.tx_rate, 100);
}

#[test]
fn rate_is_zero_when_a_counter_resets() {
    let mut s = second();
    s.net = vec![(900, 600)];
    let m = build_metrics(&first(), &s);
    assert_eq!(m.rx_rate, 0);
    assert_eq!(m.tx_rate, 100);
}

#[test]
fn absolute_gauges_are_read_through() {
    let m = build_metrics(&first(), &second());
    assert_eq!(m.uptime_days, 3);
    assert_eq!(m.load_one_centi, 61);
    assert_eq!(m.cpu_centi, 1234);
    assert_eq!(m.mem_used, "1.50 GiB");
    assert_eq!(m.mem_total, "1024.00 MiB");
    assert_eq!(m.disk_used_gib_centi, 50);
    assert_eq!(m.disk_total_gib_centi, 100);
    assert_eq!(m.swap_used_mib_centi, 50);
    assert_eq!(m.swap_total_mib_centi, 100);
    assert_eq!(m.tcp, 5);
    assert_eq!(m.udp, 1);
    assert_eq!(m.processes, 4);
}

#[test]
fn threads_count_main_thread_plus_tasks() {
    let m = build_metrics(&first(), &second());
    assert_eq!(m.threads, 8);
}

#[test]
fn pretty_name_wins_over_name() {
    let m = build_metrics(&first(), &second());
    assert_eq!(m.os_name, "Debian GNU/Linux 12 (bookworm)");
}

#[test]
fn cpu_is_clamped_into_range() {
    let mut s = second();
    s.cpu_centi = 20000;
    let m = build_metrics(&first(), &s);
    assert_eq!(m.cpu_centi, 10000);
}

#[test]
fn cumulative_traffic_comes_from_the_second_reading() {
    let mut s = second();
    s.net = vec![(5368709120, 2147483648)];
    let m = build_metrics(&first(), &s);
    assert_eq!(m.rx_total_gib_centi, 500);
    assert_eq!(m.tx_total_gib_centi, 200);
}

#[test]
fn error_body_carries_the_message() {
    let e = CollectionError { message: "socket table unreadable".to_string() };
    assert_eq!(e.error_body(), "error: socket table unreadable");
}
