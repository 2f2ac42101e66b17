use platform_info::map_processor;

#[test]
fn test_map_processor_mappings() {
    // ARM variants
    assert_eq!(map_processor("arm64"), "arm");
    assert_eq!(map_processor("aarch64"), "aarch64");
    assert_eq!(map_processor("armv6l"), "arm");
    assert_eq!(map_processor("armv7l"), "arm");
    assert_eq!(map_processor("armv8l"), "arm");

    // x86 variants
    assert_eq!(map_processor("x86_64"), "x86_64");
    assert_eq!(map_processor("amd64"), "x86_64");
    assert_eq!(map_processor("i386"), "i686");
    assert_eq!(map_processor("i486"), "i686");
    assert_eq!(map_processor("i586"), "i686");
    assert_eq!(map_processor("i686"), "i686");

    // Unknown/passthrough architectures
    assert_eq!(map_processor("riscv64"), "riscv64");
    assert_eq!(map_processor("powerpc64"), "powerpc64");
    assert_eq!(map_processor("unknown"), "unknown");
}

#[test]
fn test_map_processor_empty_passthrough() {
    assert_eq!(map_processor(""), "");
}
