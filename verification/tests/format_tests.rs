use vpscheck::fmtmem::{fmt, format_mem};

#[test]
fn gib_at_exactly_one_gib() {
    assert_eq!(format_mem(1073741824), "1.00 GiB");
}

#[test]
fn mib_one_byte_below_one_gib() {
    assert_eq!(format_mem(1073741823), "1024.00 MiB");
}

#[test]
fn zero_bytes_in_mib() {
    assert_eq!(format_mem(0), "0.00 MiB");
}

#[test]
fn one_and_a_half_gib() {
    assert_eq!(format_mem(1610612736), "1.50 GiB");
}

#[test]
fn eight_gib() {
    assert_eq!(format_mem(8589934592), "8.00 GiB");
}

#[test]
fn tie_rounds_to_even_down() {
    // 131072 bytes is exactly 0.125 MiB: the tie goes to the even value.
    assert_eq!(format_mem(131072), "0.12 MiB");
}

#[test]
fn tie_rounds_to_even_up() {
    // 393216 bytes is exactly 0.375 MiB: the tie goes to the even value.
    assert_eq!(format_mem(393216), "0.38 MiB");
}

#[test]
fn fmt_renders_like_format_mem() {
    assert_eq!(fmt(123456789), format_mem(123456789));
    assert_eq!(fmt(1073741824), "1.00 GiB");
}
