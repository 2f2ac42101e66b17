use platform_info::Uname;

#[test]
fn test_from_reading_five_lines() {
    let u = Uname::from_reading("Linux\ntesthost\n6.1.0\n#1 SMP\nx86_64\n").unwrap();
    assert_eq!(u.sysname(), "Linux");
    assert_eq!(u.nodename(), "testhost");
    assert_eq!(u.release(), "6.1.0");
    assert_eq!(u.version(), "#1 SMP");
    assert_eq!(u.machine(), "x86_64");
}

#[test]
fn test_from_reading_no_trailing_break() {
    let u = Uname::from_reading("Redox\nbox\n0.8\n1\naarch64").unwrap();
    assert_eq!(u.sysname(), "Redox");
    assert_eq!(u.machine(), "aarch64");
}

#[test]
fn test_from_reading_strips_carriage_returns() {
    let u = Uname::from_reading("A\r\nB\r\nC\r\nD\r\nE\r\n").unwrap();
    assert_eq!(u.sysname(), "A");
    assert_eq!(u.nodename(), "B");
    assert_eq!(u.release(), "C");
    assert_eq!(u.version(), "D");
    assert_eq!(u.machine(), "E");
}

#[test]
fn test_from_reading_too_few_lines() {
    assert!(Uname::from_reading("").is_none());
    assert!(Uname::from_reading("Linux\n").is_none());
    assert!(Uname::from_reading("Linux\nhost\n6.1\n#1\n").is_none());
    assert!(Uname::from_reading("Linux\nhost\n6.1\n#1").is_none());
}

#[test]
fn test_uname_clone() {
    let u = Uname::from_reading("Linux\nhost\n6.1\n#1\nriscv64\n").unwrap();
    let copy = u.clone();
    assert_eq!(copy, u);
}
