use komac::inno::header::Header;
use komac::inno::reader::{InnoError, Reader};
use komac::inno::version::KnownVersion;

#[test]
fn empty_input_is_unexpected_eof() {
    let bytes: Vec<u8> = Vec::new();
    let mut reader = Reader::new(&bytes);
    let version = KnownVersion::new(6, 3, 0, true, false);
    let result = Header::load(&mut reader, &version);
    assert!(matches!(result, Err(InnoError::UnexpectedEof)));
}

#[test]
fn architecture_expression_mixed_terms() {
    // "x64 or arm64 and not x86" allows x64 and arm64 and disallows x86.
    let chars: Vec<char> = "x64 or arm64 and not x86".chars().collect();
    let (allowed, disallowed) = komac::inno::architecture::from_expression_chars(&chars).unwrap();
    assert!(allowed.contains(komac::inno::architecture::Arch::X64));
    assert!(allowed.contains(komac::inno::architecture::Arch::Arm64));
    assert!(!allowed.contains(komac::inno::architecture::Arch::X86));
    assert!(disallowed.contains(komac::inno::architecture::Arch::X86));
    assert!(!disallowed.contains(komac::inno::architecture::Arch::X64));
}

#[test]
fn architecture_expression_unknown_identifier() {
    let chars: Vec<char> = "sparc".chars().collect();
    let result = komac::inno::architecture::from_expression_chars(&chars);
    assert!(matches!(
        result,
        Err(InnoError::InvalidArchitectureExpression)
    ));
}
