use rargo::crep::{
    Abi, Arch, CargoCommand, DecodeError, Digest, EnvironmentVariable, File, Os, PlatformTriple, LOCAL,
    REMOTE,
};
use rargo::order::{str_eq, str_le};

fn triple(arch: Arch, os: Os, abi: Abi) -> PlatformTriple {
    PlatformTriple { arch, os, abi }
}

fn env(name: &str, value: &str) -> EnvironmentVariable {
    EnvironmentVariable { name: name.to_string(), value: value.to_string() }
}

#[test]
fn target_strings_of_supported_triples() {
    let cases = [
        (Arch::X86_64, Os::Linux, Abi::Gnu, "x86_64-unknown-linux-gnu"),
        (Arch::X86_64, Os::Linux, Abi::Musl, "x86_64-unknown-linux-musl"),
        (Arch::Aarch64, Os::Linux, Abi::Gnu, "aarch64-unknown-linux-gnu"),
        (Arch::Aarch64, Os::Linux, Abi::Musl, "aarch64-unknown-linux-musl"),
        (Arch::X86_64, Os::Windows, Abi::Msvc, "x86_64-pc-windows-msvc"),
        (Arch::X86_64, Os::Windows, Abi::Gnu, "x86_64-pc-windows-gnu"),
        (Arch::Aarch64, Os::Windows, Abi::Msvc, "aarch64-pc-windows-msvc"),
        (Arch::X86_64, Os::Mac, Abi::Gnu, "x86_64-apple-darwin"),
        (Arch::X86_64, Os::Mac, Abi::Musl, "x86_64-apple-darwin"),
        (Arch::X86_64, Os::Mac, Abi::Msvc, "x86_64-apple-darwin"),
        (Arch::Aarch64, Os::Mac, Abi::Gnu, "aarch64-apple-darwin"),
        (Arch::Aarch64, Os::Mac, Abi::Msvc, "aarch64-apple-darwin"),
    ];
    for (arch, os, abi, expected) in cases {
        assert_eq!(triple(arch, os, abi).as_cargo_target_string(), expected);
    }
}

#[test]
fn command_sorts_environment_by_name() {
    let cmd = CargoCommand::new(
        vec!["build".to_string(), "--lib".to_string()],
        triple(Arch::X86_64, Os::Linux, Abi::Gnu),
        vec![env("RUSTFLAGS", "-C opt"), env("CC", "clang"), env("PATH", "/bin")],
        "crates/cli".to_string(),
    );
    let names: Vec<&str> = cmd.environment_variables().iter().map(|e| e.name.as_str()).collect();
    assert_eq!(names, vec!["CC", "PATH", "RUSTFLAGS"]);
    assert_eq!(cmd.environment_variables()[0].value, "clang");
    assert_eq!(cmd.args(), &vec!["build".to_string(), "--lib".to_string()]);
    assert_eq!(cmd.working_directory(), "crates/cli");
    assert_eq!(cmd.host_platform(), triple(Arch::X86_64, Os::Linux, Abi::Gnu));
}

#[test]
fn command_sort_is_by_code_point() {
    // Upper case sorts before lower case, and a prefix before its extensions.
    let cmd = CargoCommand::new(
        vec![],
        triple(Arch::Aarch64, Os::Mac, Abi::Gnu),
        vec![env("b", "1"), env("AB", "2"), env("A", "3"), env("b", "4"), env("é", "5"), env("z", "6")],
        String::new(),
    );
    let names: Vec<&str> = cmd.environment_variables().iter().map(|e| e.name.as_str()).collect();
    assert_eq!(names, vec!["A", "AB", "b", "b", "z", "é"]);
    let mut b_values: Vec<&str> = cmd
        .environment_variables()
        .iter()
        .filter(|e| e.name == "b")
        .map(|e| e.value.as_str())
        .collect();
    b_values.sort();
    assert_eq!(b_values, vec!["1", "4"]);
}

#[test]
fn command_keeps_sorted_environment_unchanged() {
    let sorted = vec![env("A", "1"), env("B", "2"), env("C", "3")];
    let cmd = CargoCommand::new(vec![], triple(Arch::X86_64, Os::Mac, Abi::Gnu), sorted.clone(), String::new());
    assert_eq!(cmd.environment_variables(), &sorted);
}

#[test]
fn equivalent_commands_carry_the_same_environment() {
    let a = CargoCommand::new(
        vec![],
        triple(Arch::X86_64, Os::Linux, Abi::Gnu),
        vec![env("X", "1"), env("A", "2"), env("M", "3")],
        String::new(),
    );
    let b = CargoCommand::new(
        vec![],
        triple(Arch::X86_64, Os::Linux, Abi::Gnu),
        vec![env("M", "3"), env("X", "1"), env("A", "2")],
        String::new(),
    );
    assert_eq!(a.environment_variables(), b.environment_variables());
}

#[test]
fn empty_environment_stays_empty() {
    let cmd = CargoCommand::new(vec![], triple(Arch::X86_64, Os::Linux, Abi::Musl), vec![], String::new());
    assert!(cmd.environment_variables().is_empty());
}

#[test]
fn decode_error_message() {
    assert_eq!(DecodeError::Deserialize.message(), "deserialize fail");
}

#[test]
fn origin_tags() {
    assert_eq!(LOCAL, "\x1b[38;2;100;200;220m[LOCAL] \x1b[0m");
    assert_eq!(REMOTE, "\x1b[38;2;232;185;49m[REMOTE]\x1b[0m");
}

#[test]
fn string_order() {
    assert!(str_le("", ""));
    assert!(str_le("", "a"));
    assert!(!str_le("a", ""));
    assert!(str_le("abc", "abd"));
    assert!(!str_le("abd", "abc"));
    assert!(str_le("ab", "abc"));
    assert!(str_le("Z", "a"));
    assert!(str_le("z", "é"));
    assert!(str_eq("cargo", "cargo"));
    assert!(!str_eq("cargo", "carg"));
    assert!(!str_eq("cargo", "Cargo"));
}

#[test]
fn digests_are_lowercase_hex() {
    let d = Digest::new("00ff3a9c".to_string(), 12).unwrap();
    assert_eq!(d.hash(), "00ff3a9c");
    assert_eq!(d.size_bytes(), 12);
    assert!(Digest::new(String::new(), 0).is_some());
    assert!(Digest::new("00FF".to_string(), 1).is_none());
    assert!(Digest::new("0g".to_string(), 1).is_none());
    assert!(Digest::new("ab cd".to_string(), 1).is_none());
}

#[test]
fn file_paths_are_relative() {
    let digest = || Digest::new("ab".to_string(), 3).unwrap();
    let f = File::new("src/lib.rs".to_string(), digest(), vec![1, 2, 3]).unwrap();
    assert_eq!(f.path(), "src/lib.rs");
    assert_eq!(f.digest().hash(), "ab");
    assert_eq!(f.contents(), &vec![1, 2, 3]);
    assert!(File::new("/etc/passwd".to_string(), digest(), vec![]).is_none());
    assert!(File::new("/".to_string(), digest(), vec![]).is_none());
    assert!(File::new("a/b/".to_string(), digest(), vec![]).is_some());
}
