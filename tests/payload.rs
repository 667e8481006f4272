use pulsar_loadgen::payload::{generate_large_data, payload_template, push_decimal};

#[test]
fn template_holds_index() {
    assert_eq!(payload_template(0), "This is a test message 0 ");
    assert_eq!(payload_template(4096), "This is a test message 4096 ");
}

#[test]
fn decimal_digits_are_written_in_order() {
    let mut s = String::from("n=");
    push_decimal(&mut s, 1907);
    assert_eq!(s, "n=1907");
    let mut z = String::new();
    push_decimal(&mut z, 0);
    assert_eq!(z, "0");
}

#[test]
fn one_kilobyte_for_index_zero() {
    let p = generate_large_data(0, 1);
    // 1024 / 25 = 40 copies of a 25-byte template
    assert_eq!(p.len(), 1000);
    assert_eq!(p, "This is a test message 0 ".repeat(40));
}

#[test]
fn two_kilobytes_for_index_twelve() {
    let p = generate_large_data(12, 2);
    // 2048 / 26 = 78 copies of a 26-byte template
    assert_eq!(p.len(), 2028);
    assert_eq!(p, "This is a test message 12 ".repeat(78));
}

#[test]
fn zero_size_gives_empty_payload() {
    assert_eq!(generate_large_data(0, 0), "");
    assert_eq!(generate_large_data(123456, 0), "");
}

#[test]
fn payload_within_one_template_of_target() {
    for size_kb in 1..6usize {
        for num in [0usize, 7, 99, 1000, 123456789] {
            let t = payload_template(num);
            let p = generate_large_data(num, size_kb);
            let target = size_kb * 1024;
            assert!(p.len() <= target);
            assert!(p.len() + t.len() > target);
            assert_eq!(p.len() % t.len(), 0);
            assert_eq!(p, t.repeat(p.len() / t.len()));
            assert!(p.is_ascii());
        }
    }
}
