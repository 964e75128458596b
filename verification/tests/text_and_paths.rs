use whisper_manager::layout::{model_file_name, model_path, whisper_binary, whisper_dir, DEFAULT_PORT};
use whisper_manager::messages::{describe_failure, greet, Failure};
use whisper_manager::pathenv::{enhanced_path, join_colon, split_colon};
use whisper_manager::server::{health_address, server_args};
use whisper_manager::text::decimal_string;

const EXTRAS: &str = "/opt/homebrew/bin:/opt/homebrew/sbin:/usr/local/bin:/usr/local/sbin:/usr/bin:/bin:/usr/sbin:/sbin";

#[test]
fn greet_says_hello() {
    assert_eq!(greet("Ada"), "Hello, Ada! You've been greeted from Rust!");
}

#[test]
fn decimal_of_numbers() {
    assert_eq!(decimal_string(0), "0");
    assert_eq!(decimal_string(7), "7");
    assert_eq!(decimal_string(8080), "8080");
    assert_eq!(decimal_string(65535), "65535");
    assert_eq!(decimal_string(u64::MAX), "18446744073709551615");
}

#[test]
fn decimal_reads_back() {
    for n in [0u64, 9, 10, 99, 100, 12345, 4000000000] {
        let s = decimal_string(n);
        assert!(s.chars().all(|c| c.is_ascii_digit()));
        assert!(n == 0 || !s.starts_with('0'));
        assert_eq!(s.parse::<u64>().unwrap(), n);
    }
}

#[test]
fn split_keeps_empty_pieces() {
    assert_eq!(split_colon(""), vec![String::new()]);
    assert_eq!(split_colon("a::b:"), vec!["a", "", "b", ""]);
    assert_eq!(split_colon("/usr/bin"), vec!["/usr/bin"]);
}

#[test]
fn join_puts_colons_between() {
    assert_eq!(join_colon(&vec![]), "");
    assert_eq!(join_colon(&vec!["a".to_string()]), "a");
    assert_eq!(join_colon(&vec!["a".to_string(), "".to_string(), "b".to_string()]), "a::b");
}

#[test]
fn enhanced_path_puts_common_locations_first() {
    let path = enhanced_path("/home/me/bin:/usr/bin:/usr/games");
    assert_eq!(path, format!("{EXTRAS}:/home/me/bin:/usr/games"));
}

#[test]
fn enhanced_path_of_empty_keeps_the_empty_entry() {
    assert_eq!(enhanced_path(""), format!("{EXTRAS}:"));
}

#[test]
fn enhanced_path_drops_repeats() {
    let path = enhanced_path("/x:/x:/bin:/y:/x");
    assert_eq!(path, format!("{EXTRAS}:/x:/y"));
    let parts: Vec<&str> = path.split(':').collect();
    let mut seen = std::collections::HashSet::new();
    assert!(parts.iter().all(|p| seen.insert(*p)));
}

#[test]
fn enhanced_path_is_idempotent() {
    for current in ["", "/a:/b", "/usr/bin:/opt/x:/opt/x", "::"] {
        let once = enhanced_path(current);
        assert_eq!(enhanced_path(&once), once);
    }
}

#[test]
fn enhanced_path_keeps_every_entry() {
    let current = "/p/one:/p/two:/sbin";
    let path = enhanced_path(current);
    let parts: Vec<&str> = path.split(':').collect();
    for entry in current.split(':') {
        assert!(parts.contains(&entry));
    }
    for extra in EXTRAS.split(':') {
        assert!(parts.contains(&extra));
    }
    assert!(path.starts_with(EXTRAS));
}

#[test]
fn layout_of_the_install() {
    assert_eq!(whisper_dir(), vec!["whisper.cpp"]);
    assert_eq!(whisper_binary(), vec!["whisper.cpp", "build", "bin", "whisper-server"]);
    assert_eq!(model_file_name("base.en"), "ggml-base.en.bin");
    assert_eq!(model_path("small"), vec!["whisper.cpp", "models", "ggml-small.bin"]);
    assert_eq!(DEFAULT_PORT, 8080);
}

#[test]
fn server_arguments_and_address() {
    assert_eq!(
        server_args("/data/whisper.cpp/models/ggml-base.en.bin", 9000),
        vec!["-m", "/data/whisper.cpp/models/ggml-base.en.bin", "--port", "9000", "--host", "127.0.0.1"]
    );
    assert_eq!(health_address(8080), "127.0.0.1:8080");
    assert_eq!(health_address(0), "127.0.0.1:0");
}

#[test]
fn failures_carry_their_detail() {
    assert_eq!(describe_failure(Failure::DataDir, "no home"), "Failed to get app data dir: no home");
    assert_eq!(describe_failure(Failure::CreateDataDir, "denied"), "Failed to create data dir: denied");
    assert_eq!(describe_failure(Failure::StartServer, "x"), "Failed to start whisper-server: x");
    assert_eq!(describe_failure(Failure::KillServer, "y"), "Failed to kill server: y");
    assert_eq!(describe_failure(Failure::RemoveInstall, "z"), "Failed to remove whisper.cpp: z");
}
